//! Choice of the physical device: which devices can drive the renderer,
//! and which queue families it uses on the one that is picked.

use std::collections::HashSet;
use vstd::prelude::*;

verus! {

/// What one queue family of a device can do.
#[derive(Clone, Copy, Debug, PartialEq, Eq, Structural)]
pub struct QueueFamily {
    /// It takes graphics commands.
    pub graphics: bool,
    /// It can present to the surface.
    pub present: bool,
}

/// Indices of the queue families that the renderer uses.
#[derive(Clone, Copy, Debug, PartialEq, Eq, Structural)]
pub struct QueueFamilyIndices {
    pub graphics: usize,
    pub present: usize,
}

/// What is known of a physical device when it is judged.
pub struct DeviceInfo {
    /// The device has geometry shaders.
    pub geometry_shader: bool,
    pub queue_families: Vec<QueueFamily>,
    /// Names of the extensions that the device offers.
    pub extensions: Vec<Vec<u8>>,
    /// Number of surface formats that it offers for the surface.
    pub format_count: usize,
    /// Number of presentation modes that it offers for the surface.
    pub present_mode_count: usize,
}

/// Why a device cannot drive the renderer.
#[derive(Clone, Copy, Debug, PartialEq, Eq, Structural)]
pub enum SuitabilityError {
    MissingGeometryShader,
    MissingQueueFamilies,
    MissingExtensions,
    InsufficientSwapchainSupport,
}

/// The family takes graphics commands, or presents, as `graphics` asks.
pub open spec fn family_fits(family: QueueFamily, graphics: bool) -> bool {
    if graphics {
        family.graphics
    } else {
        family.present
    }
}

/// Some family before `end` fits.
pub open spec fn has_family(families: Seq<QueueFamily>, graphics: bool, end: int) -> bool {
    exists|i: int| 0 <= i < end && i < families.len() && family_fits(#[trigger] families[i], graphics)
}

/// `index` is the first family that fits.
pub open spec fn first_family(families: Seq<QueueFamily>, graphics: bool, index: int) -> bool {
    &&& 0 <= index < families.len()
    &&& family_fits(families[index], graphics)
    &&& !has_family(families, graphics, index)
}

/// `names` holds `name`.
pub open spec fn offers(names: Seq<Vec<u8>>, name: Seq<u8>) -> bool {
    exists|j: int| 0 <= j < names.len() && (#[trigger] names[j])@ == name
}

/// `available` holds every name of `required`.
pub open spec fn offers_all(available: Seq<Vec<u8>>, required: Seq<Vec<u8>>) -> bool {
    forall|i: int| 0 <= i < required.len() ==> offers(available, (#[trigger] required[i])@)
}

impl DeviceInfo {
    /// The verdict on the device: the first demand that it fails, of
    /// geometry shaders, queue families for graphics and for presentation,
    /// the extensions `required`, and at least one surface format and one
    /// presentation mode.
    pub open spec fn spec_check(&self, required: Seq<Vec<u8>>) -> Result<(), SuitabilityError> {
        let families = self.queue_families@;
        if !self.geometry_shader {
            Err(SuitabilityError::MissingGeometryShader)
        } else if !has_family(families, true, families.len() as int) || !has_family(
            families,
            false,
            families.len() as int,
        ) {
            Err(SuitabilityError::MissingQueueFamilies)
        } else if !offers_all(self.extensions@, required) {
            Err(SuitabilityError::MissingExtensions)
        } else if self.format_count == 0 || self.present_mode_count == 0 {
            Err(SuitabilityError::InsufficientSwapchainSupport)
        } else {
            Ok(())
        }
    }
}

/// The first family that takes graphics commands, or that presents, as
/// `graphics` asks.
pub fn find_family(families: &Vec<QueueFamily>, graphics: bool) -> (r: Option<usize>)
    ensures
        r is Some <==> has_family(families@, graphics, families@.len() as int),
        r matches Some(index) ==> first_family(families@, graphics, index as int),
{
    let mut i: usize = 0;
    while i < families.len()
        invariant
            i <= families.len(),
            !has_family(families@, graphics, i as int),
        decreases families.len() - i,
    {
        let family = families[i];
        let fits = if graphics {
            family.graphics
        } else {
            family.present
        };
        if fits {
            assert(family_fits(families@[i as int], graphics));
            return Some(i);
        }
        i += 1;
    }
    None
}

/// The queue families that the renderer uses on a device, or `None` where
/// no family takes graphics commands or none presents.
pub fn find_queue_families(families: &Vec<QueueFamily>) -> (r: Option<QueueFamilyIndices>)
    ensures
        r is Some <==> has_family(families@, true, families@.len() as int) && has_family(
            families@,
            false,
            families@.len() as int,
        ),
        r matches Some(indices) ==> first_family(families@, true, indices.graphics as int)
            && first_family(families@, false, indices.present as int),
{
    match find_family(families, true) {
        Some(graphics) => match find_family(families, false) {
            Some(present) => Some(QueueFamilyIndices { graphics, present }),
            None => None,
        },
        None => None,
    }
}

/// True when the two names are the same bytes.
fn same_name(a: &Vec<u8>, b: &Vec<u8>) -> (r: bool)
    ensures
        r == (a@ == b@),
{
    if a.len() != b.len() {
        return false;
    }
    let mut i: usize = 0;
    while i < a.len()
        invariant
            i <= a.len(),
            a.len() == b.len(),
            forall|j: int| 0 <= j < i ==> a@[j] == b@[j],
        decreases a.len() - i,
    {
        if a[i] != b[i] {
            return false;
        }
        i += 1;
    }
    assert(a@ =~= b@);
    true
}

/// True when `names` holds `name`.
pub fn name_offered(names: &Vec<Vec<u8>>, name: &Vec<u8>) -> (r: bool)
    ensures
        r == offers(names@, name@),
{
    let mut j: usize = 0;
    while j < names.len()
        invariant
            j <= names.len(),
            forall|k: int| 0 <= k < j ==> (#[trigger] names@[k])@ != name@,
        decreases names.len() - j,
    {
        if same_name(&names[j], name) {
            return true;
        }
        j += 1;
    }
    false
}

/// True when `available` holds every name of `required`.
pub fn check_physical_device_extensions(available: &Vec<Vec<u8>>, required: &Vec<Vec<u8>>) -> (r:
    bool)
    ensures
        r == offers_all(available@, required@),
{
    let mut i: usize = 0;
    while i < required.len()
        invariant
            i <= required.len(),
            forall|k: int| 0 <= k < i ==> offers(available@, (#[trigger] required@[k])@),
        decreases required.len() - i,
    {
        if !name_offered(available, &required[i]) {
            return false;
        }
        i += 1;
    }
    true
}

/// Judges a device: it needs geometry shaders, a queue family for graphics
/// and one for presentation, the extensions `required`, and at least one
/// surface format and one presentation mode. The first demand that fails
/// is reported.
pub fn check_physical_device(info: &DeviceInfo, required: &Vec<Vec<u8>>) -> (r: Result<
    (),
    SuitabilityError,
>)
    ensures
        r == info.spec_check(required@),
{
    if !info.geometry_shader {
        return Err(SuitabilityError::MissingGeometryShader);
    }
    if find_queue_families(&info.queue_families).is_none() {
        return Err(SuitabilityError::MissingQueueFamilies);
    }
    if !check_physical_device_extensions(&info.extensions, required) {
        return Err(SuitabilityError::MissingExtensions);
    }
    if info.format_count == 0 || info.present_mode_count == 0 {
        return Err(SuitabilityError::InsufficientSwapchainSupport);
    }
    Ok(())
}

/// Picks the first device that can drive the renderer, by its index, or
/// `None` where there is none.
pub fn pick_physical_device(devices: &Vec<DeviceInfo>, required: &Vec<Vec<u8>>) -> (r: Option<
    usize,
>)
    ensures
        match r {
            Some(index) => {
                &&& index < devices@.len()
                &&& devices@[index as int].spec_check(required@) is Ok
                &&& forall|k: int|
                    0 <= k < index ==> (#[trigger] devices@[k]).spec_check(required@) is Err
            },
            None => forall|k: int|
                0 <= k < devices@.len() ==> (#[trigger] devices@[k]).spec_check(required@) is Err,
        },
{
    let mut i: usize = 0;
    while i < devices.len()
        invariant
            i <= devices.len(),
            forall|k: int| 0 <= k < i ==> (#[trigger] devices@[k]).spec_check(required@) is Err,
        decreases devices.len() - i,
    {
        if check_physical_device(&devices[i], required).is_ok() {
            return Some(i);
        }
        i += 1;
    }
    None
}

/// The queue families for which the logical device makes a queue: the one
/// for graphics and the one for presentation, once where they are the
/// same.
pub fn unique_queue_families(indices: QueueFamilyIndices) -> (r: HashSet<usize>)
    ensures
        r@ == set![indices.graphics, indices.present],
        r@.finite(),
        forall|family: usize|
            r@.contains(family) <==> family == indices.graphics || family == indices.present,
{
    broadcast use vstd::std_specs::hash::group_hash_axioms;

    let mut r: HashSet<usize> = HashSet::new();
    r.insert(indices.graphics);
    r.insert(indices.present);
    assert(r@ =~= set![indices.graphics, indices.present]);
    r
}

/// Memory type `index` can back a resource that accepts the types in
/// `type_bits` and needs the properties `required`.
pub open spec fn memory_type_fits(type_bits: u32, required: u32, flags: Seq<u32>, index: int) -> bool {
    &&& 0 <= index < flags.len()
    &&& index < 32
    &&& type_bits & (1u32 << (index as u32)) != 0
    &&& flags[index] & required == required
}

/// The first memory type that a resource accepts and that has all the
/// properties `required`. `flags` holds the properties of each memory type
/// of the device, `type_bits` one bit for each type that the resource
/// accepts.
pub fn find_memory_type(type_bits: u32, required: u32, flags: &Vec<u32>) -> (r: Option<u32>)
    ensures
        match r {
            Some(index) => memory_type_fits(type_bits, required, flags@, index as int)
                && forall|k: int|
                0 <= k < index ==> !memory_type_fits(type_bits, required, flags@, k),
            None => forall|k: int| !memory_type_fits(type_bits, required, flags@, k),
        },
{
    let mut i: u32 = 0;
    while i < 32 && (i as usize) < flags.len()
        invariant
            i <= 32,
            i <= flags@.len(),
            forall|k: int| 0 <= k < i ==> !memory_type_fits(type_bits, required, flags@, k),
        decreases 32 - i,
    {
        if type_bits & (1u32 << i) != 0 && flags[i as usize] & required == required {
            return Some(i);
        }
        i += 1;
    }
    None
}

/// The queue families among which the swapchain images are shared: none
/// where one family both draws and presents, so that the images belong to
/// it alone; else the two families.
pub fn sharing_queue_families(indices: QueueFamilyIndices) -> (r: Vec<usize>)
    ensures
        r@ == if indices.graphics == indices.present {
            Seq::<usize>::empty()
        } else {
            seq![indices.graphics, indices.present]
        },
{
    let mut r: Vec<usize> = Vec::new();
    if indices.graphics != indices.present {
        r.push(indices.graphics);
        r.push(indices.present);
    }
    assert(r@ =~= if indices.graphics == indices.present {
        Seq::<usize>::empty()
    } else {
        seq![indices.graphics, indices.present]
    });
    r
}

} // verus!
