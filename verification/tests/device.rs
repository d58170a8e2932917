use frameloop::device::{
    check_physical_device, check_physical_device_extensions, find_family, find_memory_type,
    find_queue_families, name_offered, pick_physical_device, sharing_queue_families,
    unique_queue_families, DeviceInfo, QueueFamily, QueueFamilyIndices, SuitabilityError,
};

fn name(text: &str) -> Vec<u8> {
    text.as_bytes().to_vec()
}

fn required() -> Vec<Vec<u8>> {
    vec![name("VK_KHR_swapchain")]
}

fn good() -> DeviceInfo {
    DeviceInfo {
        geometry_shader: true,
        queue_families: vec![
            QueueFamily { graphics: false, present: false },
            QueueFamily { graphics: true, present: false },
            QueueFamily { graphics: true, present: true },
        ],
        extensions: vec![name("VK_KHR_maintenance1"), name("VK_KHR_swapchain")],
        format_count: 2,
        present_mode_count: 1,
    }
}

#[test]
fn a_device_that_meets_every_demand_is_suitable() {
    assert_eq!(check_physical_device(&good(), &required()), Ok(()));
}

#[test]
fn each_demand_is_checked_in_turn() {
    let mut d = good();
    d.format_count = 0;
    assert_eq!(
        check_physical_device(&d, &required()),
        Err(SuitabilityError::InsufficientSwapchainSupport)
    );
    let mut d = good();
    d.present_mode_count = 0;
    assert_eq!(
        check_physical_device(&d, &required()),
        Err(SuitabilityError::InsufficientSwapchainSupport)
    );
    d.extensions.pop();
    assert_eq!(check_physical_device(&d, &required()), Err(SuitabilityError::MissingExtensions));
    d.queue_families.pop();
    assert_eq!(check_physical_device(&d, &required()), Err(SuitabilityError::MissingQueueFamilies));
    d.geometry_shader = false;
    assert_eq!(check_physical_device(&d, &required()), Err(SuitabilityError::MissingGeometryShader));
}

#[test]
fn the_first_fitting_family_is_taken() {
    let families = good().queue_families;
    assert_eq!(find_family(&families, true), Some(1));
    assert_eq!(find_family(&families, false), Some(2));
    assert_eq!(
        find_queue_families(&families),
        Some(QueueFamilyIndices { graphics: 1, present: 2 })
    );
    assert_eq!(find_queue_families(&vec![]), None);
    assert_eq!(
        find_queue_families(&vec![QueueFamily { graphics: true, present: false }]),
        None
    );
    assert_eq!(
        find_queue_families(&vec![QueueFamily { graphics: false, present: true }]),
        None
    );
}

#[test]
fn extension_names_are_compared_byte_by_byte() {
    let available = vec![name("a"), name("VK_KHR_swapchain"), name("")];
    assert!(name_offered(&available, &name("VK_KHR_swapchain")));
    assert!(name_offered(&available, &name("")));
    assert!(!name_offered(&available, &name("VK_KHR_swapchai")));
    assert!(!name_offered(&available, &name("VK_KHR_swapchain2")));
    assert!(!name_offered(&available, &name("VK_KHR_swapchaim")));
    assert!(check_physical_device_extensions(&available, &vec![name("a"), name("")]));
    assert!(!check_physical_device_extensions(&available, &vec![name("a"), name("b")]));
    assert!(check_physical_device_extensions(&vec![], &vec![]));
}

#[test]
fn the_first_suitable_device_is_picked() {
    let mut weak = good();
    weak.geometry_shader = false;
    let mut bare = good();
    bare.extensions.clear();
    assert_eq!(pick_physical_device(&vec![weak, bare, good(), good()], &required()), Some(2));
}

#[test]
fn no_suitable_device_gives_none() {
    let mut weak = good();
    weak.geometry_shader = false;
    assert_eq!(pick_physical_device(&vec![weak], &required()), None);
    assert_eq!(pick_physical_device(&vec![], &required()), None);
}

#[test]
fn one_queue_is_made_for_each_distinct_family() {
    let one = unique_queue_families(QueueFamilyIndices { graphics: 1, present: 1 });
    assert_eq!(one.len(), 1);
    assert!(one.contains(&1));
    let two = unique_queue_families(QueueFamilyIndices { graphics: 0, present: 2 });
    assert_eq!(two.len(), 2);
    assert!(two.contains(&0));
    assert!(two.contains(&2));
    assert!(!two.contains(&1));
}

#[test]
fn the_first_memory_type_that_fits_is_found() {
    // Types 0..4 with properties: device local, host visible, host visible and coherent, all.
    let flags = vec![0b001, 0b010, 0b110, 0b111];
    // The resource accepts every type; host visible and coherent are asked for.
    assert_eq!(find_memory_type(0b1111, 0b110, &flags), Some(2));
    // It accepts only types 0 and 3.
    assert_eq!(find_memory_type(0b1001, 0b110, &flags), Some(3));
    assert_eq!(find_memory_type(0b1001, 0b001, &flags), Some(0));
    // Nothing asked for: the first accepted type.
    assert_eq!(find_memory_type(0b0100, 0, &flags), Some(2));
}

#[test]
fn no_memory_type_that_fits_gives_none() {
    let flags = vec![0b001, 0b010];
    assert_eq!(find_memory_type(0b11, 0b100, &flags), None);
    assert_eq!(find_memory_type(0, 0, &flags), None);
    // Bits beyond the types that the device has are not looked at.
    assert_eq!(find_memory_type(0b100, 0, &flags), None);
    assert_eq!(find_memory_type(u32::MAX, 0b1000, &vec![0; 40]), None);
    assert_eq!(find_memory_type(1 << 31, 0, &vec![0; 40]), Some(31));
}

#[test]
fn images_are_shared_only_between_two_families() {
    assert!(sharing_queue_families(QueueFamilyIndices { graphics: 3, present: 3 }).is_empty());
    assert_eq!(
        sharing_queue_families(QueueFamilyIndices { graphics: 0, present: 2 }),
        vec![0, 2]
    );
}
