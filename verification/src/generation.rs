//! The live swapchain generation: one complete set of size-dependent
//! resources, replaced as a whole.

use crate::surface::SwapchainConfig;
use vstd::prelude::*;

verus! {

/// One swapchain generation. The resources themselves belong to the device;
/// this is what the frame loop knows of them.
#[derive(Clone, Copy, Debug, PartialEq, Eq, Structural)]
pub struct Generation {
    /// Distinguishes this generation from the one it replaced.
    pub serial: u64,
    /// What the selection rules settled for it.
    pub config: SwapchainConfig,
    /// Number of images that the surface handed out.
    pub image_count: usize,
}

/// The serial after `serial`, wrapping at the end of the range.
pub open spec fn spec_next_serial(serial: u64) -> u64 {
    if serial == u64::MAX {
        0
    } else {
        (serial + 1) as u64
    }
}

impl Generation {
    /// A generation has at least one image, and its images have an area.
    pub open spec fn wf(self) -> bool {
        self.image_count >= 1 && !self.config.extent.is_degenerate()
    }

    /// Two generations agree in image count, format and extent.
    pub open spec fn same_shape(self, other: Generation) -> bool {
        &&& self.image_count == other.image_count
        &&& self.config.format == other.config.format
        &&& self.config.extent == other.config.extent
    }

    /// The generation that takes the place of `self`.
    pub open spec fn spec_replaced(self, config: SwapchainConfig, image_count: usize) -> Generation {
        Generation { serial: spec_next_serial(self.serial), config, image_count }
    }

    /// The first generation, or `None` where it would have no image or no
    /// area.
    pub fn new(config: SwapchainConfig, image_count: usize) -> (r: Option<Generation>)
        ensures
            r is Some <==> image_count >= 1 && !config.extent.is_degenerate(),
            r matches Some(g) ==> g == (Generation { serial: 0, config, image_count }) && g.wf(),
    {
        if image_count >= 1 && !config.extent.degenerate() {
            Some(Generation { serial: 0, config, image_count })
        } else {
            None
        }
    }

    /// The generation that takes the place of this one, or `None` where it
    /// would have no image or no area.
    pub fn replaced(&self, config: SwapchainConfig, image_count: usize) -> (r: Option<Generation>)
        ensures
            r is Some <==> image_count >= 1 && !config.extent.is_degenerate(),
            r matches Some(g) ==> g == self.spec_replaced(config, image_count) && g.wf()
                && g.serial != self.serial,
    {
        if image_count >= 1 && !config.extent.degenerate() {
            let serial: u64 = if self.serial == u64::MAX {
                0
            } else {
                self.serial + 1
            };
            Some(Generation { serial, config, image_count })
        } else {
            None
        }
    }
}

} // verus!
