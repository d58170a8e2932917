//! The swapchain recreation controller: whether the generation can be
//! rebuilt for the surface as it is now, and the replacement of the live
//! generation once the new one is built.
//!
//! A rebuild runs in this order. The device is waited on until it is idle.
//! The resources of the live generation are destroyed in the order of
//! [`crate::resources::teardown_plan`]. The resources of the new generation
//! are built in the order of [`crate::resources::build_plan`], its command
//! buffers recorded last with [`crate::commands::record_all`]. Then the
//! new generation takes the place of the live one, and the image bindings
//! are cleared.

use crate::generation::Generation;
use crate::surface::{
    configure_swapchain, spec_choose_extent, ConfigError, Extent, SwapchainConfig, SwapchainSupport,
};
use crate::sync::SyncSet;
use vstd::prelude::*;

verus! {

/// What is to become of a generation that is stale.
#[derive(Clone, Copy, Debug, PartialEq, Eq, Structural)]
pub enum Recreation {
    /// It is rebuilt with this configuration.
    Rebuild { config: SwapchainConfig },
    /// The surface has no area now: the live generation stays until it
    /// has one again.
    Deferred,
    /// No generation can be built on this surface.
    Refused { error: ConfigError },
}

/// The decision for a surface that offers `support` under a window of
/// size `window`.
pub open spec fn spec_plan_recreation(support: SwapchainSupport, window: Extent) -> Recreation {
    match support.configure(window) {
        Ok(config) => Recreation::Rebuild { config },
        Err(ConfigError::ZeroArea) => Recreation::Deferred,
        Err(error) => Recreation::Refused { error },
    }
}

/// Decides whether the generation can be rebuilt now. A window or a
/// surface without area defers the rebuild, whatever else the surface
/// offers; a generation that is to be built has at least one image and an
/// area.
pub fn plan_recreation(support: &SwapchainSupport, window: Extent) -> (r: Recreation)
    ensures
        r == spec_plan_recreation(*support, window),
        window.is_degenerate() ==> r == Recreation::Deferred,
        r matches Recreation::Rebuild { config } ==> config.image_count >= 1
            && !config.extent.is_degenerate() && config.extent == spec_choose_extent(
            support.capabilities,
            window,
        ),
        r matches Recreation::Refused { error } ==> error != ConfigError::ZeroArea,
{
    match configure_swapchain(support, window) {
        Ok(config) => Recreation::Rebuild { config },
        Err(ConfigError::ZeroArea) => Recreation::Deferred,
        Err(error) => Recreation::Refused { error },
    }
}

/// Puts the generation that was built, with `image_count` images, in the
/// place of the live one; the device has been idle since the old one was
/// destroyed. The bindings become as many as the new images, none of them
/// bound, and no fence is left with work in flight. Returns false, and
/// changes nothing, where the new generation would have no image or no
/// area.
pub fn replace_generation(
    live: &mut Generation,
    sync: &mut SyncSet,
    config: SwapchainConfig,
    image_count: usize,
) -> (replaced: bool)
    ensures
        replaced == (image_count >= 1 && !config.extent.is_degenerate()),
        replaced ==> *final(live) == old(live).spec_replaced(config, image_count) && final(live).wf()
            && final(live).serial != old(live).serial,
        replaced ==> final(sync)@ == old(sync)@.retired(image_count as nat),
        replaced ==> final(sync)@.images() == image_count && forall|i: int|
            0 <= i < image_count ==> final(sync)@.bindings[i] is None,
        !replaced ==> *final(live) == *old(live) && final(sync)@ == old(sync)@,
        old(sync)@.wf() ==> final(sync)@.wf(),
{
    match live.replaced(config, image_count) {
        Some(generation) => {
            sync.retire(image_count);
            *live = generation;
            true
        },
        None => false,
    }
}

} // verus!
