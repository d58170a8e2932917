//! Selection rules of the resource factory: surface format, presentation
//! mode, extent and image count of a swapchain generation.

use vstd::prelude::*;

verus! {

/// Raw value of the preferred colour format, 8-bit BGRA in sRGB encoding.
pub const FORMAT_B8G8R8A8_SRGB: i32 = 50;

/// Raw value of the preferred colour space, non-linear sRGB.
pub const COLOR_SPACE_SRGB_NONLINEAR: i32 = 0;

/// Raw value of the mailbox presentation mode.
pub const PRESENT_MODE_MAILBOX: i32 = 1;

/// Raw value of the first-in-first-out presentation mode.
pub const PRESENT_MODE_FIFO: i32 = 2;

/// Size of a surface or of a swapchain image, in pixels.
#[derive(Clone, Copy, Debug, PartialEq, Eq, Structural)]
pub struct Extent {
    pub width: u32,
    pub height: u32,
}

/// A colour format together with the colour space it is shown in.
#[derive(Clone, Copy, Debug, PartialEq, Eq, Structural)]
pub struct SurfaceFormat {
    pub format: i32,
    pub color_space: i32,
}

/// The limits that a surface reports for swapchains made on it.
#[derive(Clone, Copy, Debug, PartialEq, Eq, Structural)]
pub struct SurfaceCapabilities {
    pub min_image_count: u32,
    /// Zero when the surface sets no upper limit.
    pub max_image_count: u32,
    pub min_image_extent: Extent,
    pub max_image_extent: Extent,
}

/// Everything a surface offers: its limits, formats and presentation modes.
#[derive(Clone, Debug)]
pub struct SwapchainSupport {
    pub capabilities: SurfaceCapabilities,
    pub formats: Vec<SurfaceFormat>,
    pub present_modes: Vec<i32>,
}

/// What the selection rules settle for one swapchain generation.
#[derive(Clone, Copy, Debug, PartialEq, Eq, Structural)]
pub struct SwapchainConfig {
    pub format: SurfaceFormat,
    pub present_mode: i32,
    pub extent: Extent,
    /// Number of images asked of the surface; it may hand out more.
    pub image_count: u32,
}

/// Why no swapchain can be configured.
#[derive(Clone, Copy, Debug, PartialEq, Eq, Structural)]
pub enum ConfigError {
    /// The surface offers no format.
    NoSurfaceFormat,
    /// The surface offers no presentation mode.
    NoPresentMode,
    /// The surface or the chosen extent has no area.
    ZeroArea,
}

impl Extent {
    /// True when the extent covers no pixel.
    pub open spec fn is_degenerate(self) -> bool {
        self.width == 0 || self.height == 0
    }

    /// True when the extent covers no pixel.
    pub fn degenerate(&self) -> (r: bool)
        ensures
            r == self.is_degenerate(),
    {
        self.width == 0 || self.height == 0
    }
}

/// The preferred surface format.
pub open spec fn preferred_format() -> SurfaceFormat {
    SurfaceFormat { format: FORMAT_B8G8R8A8_SRGB, color_space: COLOR_SPACE_SRGB_NONLINEAR }
}

/// The format picked from `formats`: the preferred one where it is offered,
/// else the first.
pub open spec fn spec_choose_surface_format(formats: Seq<SurfaceFormat>) -> Option<SurfaceFormat> {
    if formats.len() == 0 {
        None
    } else if formats.contains(preferred_format()) {
        Some(preferred_format())
    } else {
        Some(formats[0])
    }
}

/// The mode picked from `modes`: mailbox, else first-in-first-out, else the
/// first one offered.
pub open spec fn spec_choose_present_mode(modes: Seq<i32>) -> Option<i32> {
    if modes.len() == 0 {
        None
    } else if modes.contains(PRESENT_MODE_MAILBOX) {
        Some(PRESENT_MODE_MAILBOX)
    } else if modes.contains(PRESENT_MODE_FIFO) {
        Some(PRESENT_MODE_FIFO)
    } else {
        Some(modes[0])
    }
}

/// `value` brought into `min..=max`; `min` wins where the bounds cross.
pub open spec fn spec_clamp(min: u32, max: u32, value: u32) -> u32 {
    let upper: u32 = if value < max { value } else { max };
    if upper < min { min } else { upper }
}

/// The extent a swapchain is asked for: the size of the window, brought
/// within the limits of the surface.
pub open spec fn spec_choose_extent(caps: SurfaceCapabilities, window: Extent) -> Extent {
    Extent {
        width: spec_clamp(caps.min_image_extent.width, caps.max_image_extent.width, window.width),
        height: spec_clamp(
            caps.min_image_extent.height,
            caps.max_image_extent.height,
            window.height,
        ),
    }
}

/// One image more than the surface's minimum, capped by its maximum where it
/// has one.
pub open spec fn spec_choose_image_count(caps: SurfaceCapabilities) -> u32 {
    let wanted: int = if caps.min_image_count == u32::MAX {
        u32::MAX as int
    } else {
        caps.min_image_count + 1
    };
    if caps.max_image_count != 0 && wanted > caps.max_image_count {
        caps.max_image_count
    } else {
        wanted as u32
    }
}

/// The configuration of the generation built on a surface that offers
/// `formats`, `modes` and `caps`, for a window of size `window`.
pub open spec fn spec_configure(
    caps: SurfaceCapabilities,
    formats: Seq<SurfaceFormat>,
    modes: Seq<i32>,
    window: Extent,
) -> Result<SwapchainConfig, ConfigError> {
    if window.is_degenerate() {
        Err(ConfigError::ZeroArea)
    } else if formats.len() == 0 {
        Err(ConfigError::NoSurfaceFormat)
    } else if modes.len() == 0 {
        Err(ConfigError::NoPresentMode)
    } else if spec_choose_extent(caps, window).is_degenerate() {
        Err(ConfigError::ZeroArea)
    } else {
        Ok(
            SwapchainConfig {
                format: spec_choose_surface_format(formats).unwrap(),
                present_mode: spec_choose_present_mode(modes).unwrap(),
                extent: spec_choose_extent(caps, window),
                image_count: spec_choose_image_count(caps),
            },
        )
    }
}

impl SwapchainSupport {
    /// The configuration that the selection rules give for this surface and
    /// a window of size `window`.
    pub open spec fn configure(self, window: Extent) -> Result<SwapchainConfig, ConfigError> {
        spec_configure(self.capabilities, self.formats@, self.present_modes@, window)
    }
}

/// Picks the surface format: the preferred one where it is offered, else the
/// first; `None` when nothing is offered.
pub fn choose_surface_format(formats: &Vec<SurfaceFormat>) -> (r: Option<SurfaceFormat>)
    ensures
        r == spec_choose_surface_format(formats@),
        r is Some ==> formats@.contains(r.unwrap()),
{
    if formats.len() == 0 {
        return None;
    }
    let mut i: usize = 0;
    while i < formats.len()
        invariant
            i <= formats.len(),
            forall|j: int| 0 <= j < i ==> formats@[j] != preferred_format(),
        decreases formats.len() - i,
    {
        let f = formats[i];
        if f.format == FORMAT_B8G8R8A8_SRGB && f.color_space == COLOR_SPACE_SRGB_NONLINEAR {
            assert(formats@[i as int] == preferred_format());
            return Some(f);
        }
        i += 1;
    }
    assert(!formats@.contains(preferred_format()));
    Some(formats[0])
}

/// True when `modes` holds `mode`.
fn offers_mode(modes: &Vec<i32>, mode: i32) -> (r: bool)
    ensures
        r == modes@.contains(mode),
{
    let mut i: usize = 0;
    while i < modes.len()
        invariant
            i <= modes.len(),
            forall|j: int| 0 <= j < i ==> modes@[j] != mode,
        decreases modes.len() - i,
    {
        if modes[i] == mode {
            return true;
        }
        i += 1;
    }
    false
}

/// Picks the presentation mode: mailbox, else first-in-first-out, else the
/// first one offered; `None` when nothing is offered.
pub fn choose_present_mode(modes: &Vec<i32>) -> (r: Option<i32>)
    ensures
        r == spec_choose_present_mode(modes@),
        r is Some ==> modes@.contains(r.unwrap()),
{
    if modes.len() == 0 {
        None
    } else if offers_mode(modes, PRESENT_MODE_MAILBOX) {
        Some(PRESENT_MODE_MAILBOX)
    } else if offers_mode(modes, PRESENT_MODE_FIFO) {
        Some(PRESENT_MODE_FIFO)
    } else {
        Some(modes[0])
    }
}

/// Brings `value` into `min..=max`; `min` wins where the bounds cross.
pub fn clamp(min: u32, max: u32, value: u32) -> (r: u32)
    ensures
        r == spec_clamp(min, max, value),
        min <= max ==> min <= r <= max,
        min <= value <= max ==> r == value,
{
    let upper: u32 = if value < max { value } else { max };
    if upper < min { min } else { upper }
}

/// Picks the extent of the swapchain images: the size of the window,
/// brought within the limits of the surface.
pub fn choose_extent(caps: &SurfaceCapabilities, window: Extent) -> (r: Extent)
    ensures
        r == spec_choose_extent(*caps, window),
{
    Extent {
        width: clamp(caps.min_image_extent.width, caps.max_image_extent.width, window.width),
        height: clamp(caps.min_image_extent.height, caps.max_image_extent.height, window.height),
    }
}

/// Picks the number of images to ask for.
pub fn choose_image_count(caps: &SurfaceCapabilities) -> (r: u32)
    ensures
        r == spec_choose_image_count(*caps),
        r >= 1,
        caps.max_image_count != 0 ==> r <= caps.max_image_count,
        r <= caps.min_image_count + 1,
{
    let wanted: u32 = caps.min_image_count.saturating_add(1);
    if caps.max_image_count != 0 && wanted > caps.max_image_count {
        caps.max_image_count
    } else {
        wanted
    }
}

/// Settles the configuration of a swapchain generation, or says why none
/// can be built now. A window without area is reported before anything
/// else, and a chosen extent without area after the formats and modes.
pub fn configure_swapchain(support: &SwapchainSupport, window: Extent) -> (r: Result<
    SwapchainConfig,
    ConfigError,
>)
    ensures
        r == support.configure(window),
        r matches Ok(c) ==> c.image_count >= 1 && !c.extent.is_degenerate()
            && support.formats@.contains(c.format) && support.present_modes@.contains(
            c.present_mode,
        ),
        r matches Ok(c) ==> c.extent == spec_choose_extent(support.capabilities, window)
            && c.image_count == spec_choose_image_count(support.capabilities),
{
    if window.degenerate() {
        return Err(ConfigError::ZeroArea);
    }
    let format = match choose_surface_format(&support.formats) {
        Some(f) => f,
        None => {
            return Err(ConfigError::NoSurfaceFormat);
        },
    };
    let present_mode = match choose_present_mode(&support.present_modes) {
        Some(m) => m,
        None => {
            return Err(ConfigError::NoPresentMode);
        },
    };
    let extent = choose_extent(&support.capabilities, window);
    if extent.degenerate() {
        return Err(ConfigError::ZeroArea);
    }
    let image_count: u32 = choose_image_count(&support.capabilities);
    Ok(SwapchainConfig { format, present_mode, extent, image_count })
}

} // verus!
