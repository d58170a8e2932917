//! The frame driver: the render loop as a state machine.
//!
//! The shell performs the [`Action`] that a step returns and reports the
//! outcome as the next [`Event`]. One frame runs through waiting on the
//! slot's fence, acquiring an image, waiting on the image's fence,
//! submitting and presenting, and then advances to the next slot. A stale
//! surface leads through a query of the surface and a rebuild of the
//! generation.

use crate::generation::Generation;
use crate::recreate::{plan_recreation, replace_generation, spec_plan_recreation, Recreation};
use crate::surface::{ConfigError, Extent, SwapchainConfig, SwapchainSupport};
use crate::sync::{FenceState, SyncSet, SyncView};
use vstd::arithmetic::div_mod::{
    lemma_fundamental_div_mod, lemma_fundamental_div_mod_converse, lemma_mod_bound,
};
use vstd::prelude::*;

verus! {

/// Success code of a presentation on a surface whose properties no longer
/// match the swapchain exactly.
pub const RESULT_SUBOPTIMAL: i32 = 1000001003;

/// Error code of a call refused because the surface has changed so that
/// the swapchain can no longer be used with it.
pub const RESULT_OUT_OF_DATE: i32 = -1000001004;

/// Why the frame loop cannot go on.
#[derive(Clone, Copy, Debug, PartialEq, Eq, Structural)]
pub enum FrameError {
    /// A device call failed with this result code.
    Device { code: i32 },
    /// The surface offers no format.
    NoSurfaceFormat,
    /// The surface offers no presentation mode.
    NoPresentMode,
    /// The device handed out no image, or an image that does not exist.
    NoSuchImage,
    /// The shell could not do what was asked, for a reason that is no
    /// result code of the device.
    Aborted,
    /// The event does not answer the action that was asked for.
    UnexpectedEvent,
}

/// Where the driver stands: the action whose outcome it waits for.
#[derive(Clone, Copy, Debug, PartialEq, Eq, Structural)]
pub enum Phase {
    /// Between frames.
    Idle,
    /// Waiting on the fence of the current slot.
    WaitFence,
    /// Acquiring the next image.
    AcquireImage,
    /// Waiting on the fence of `owner`, whose work on `image` is in flight.
    WaitImageFence { image: usize, owner: usize },
    /// Submitting the commands of `image`.
    Submit { image: usize },
    /// Presenting `image`.
    Present { image: usize },
    /// Between frames, with a stale generation: a rebuild is owed.
    Stale,
    /// Asking the surface what it offers.
    QuerySurface,
    /// Replacing the generation by one with this configuration.
    Rebuild { config: SwapchainConfig },
    /// Stopped by a fatal error.
    Failed { error: FrameError },
    /// Closed by the shell.
    Closed,
}

/// What the shell is to do next.
#[derive(Clone, Copy, Debug, PartialEq, Eq, Structural)]
pub enum Action {
    /// Nothing until the next frame is begun.
    Yield,
    /// Wait, without a time limit, on the in-flight fence of `slot`.
    WaitFence { slot: usize },
    /// Acquire the next image, without a time limit, signaling the
    /// image-available semaphore of `slot`.
    AcquireImage { slot: usize },
    /// Wait, without a time limit, on the in-flight fence of `slot`, which
    /// guards the image just acquired.
    WaitImageFence { slot: usize },
    /// Write the shader parameters of this frame for `image`, reset the
    /// fence of `slot`, then submit the command buffer of `image`: it waits
    /// on the slot's image-available semaphore at the colour output stage,
    /// and signals the slot's render-finished semaphore and fence.
    Submit { slot: usize, image: usize },
    /// Present `image`, waiting on the render-finished semaphore of `slot`.
    Present { slot: usize, image: usize },
    /// Read the surface's limits, formats and modes, and the window's size.
    QuerySurface,
    /// Wait for the device to be idle, destroy the live generation, build
    /// one with this configuration and record its command buffers.
    Rebuild { config: SwapchainConfig },
    /// Give up: the error is fatal.
    Abort { error: FrameError },
}

/// What the shell reports.
#[derive(Debug)]
pub enum Event {
    /// A frame is wanted.
    Begin,
    /// The wait or the submission that was asked for has succeeded.
    Done,
    /// The image with this index was acquired.
    Acquired { image: u32 },
    /// The image was queued for presentation.
    Presented { suboptimal: bool },
    /// The surface no longer matches the swapchain.
    OutOfDate,
    /// What the surface offers, and the size of the window.
    Surface { support: SwapchainSupport, window: Extent },
    /// The new generation stands, with this many images.
    Rebuilt { image_count: u32 },
    /// The device call failed with this result code.
    Failed { code: i32 },
    /// The shell could not do what was asked, for a reason that is no
    /// result code of the device: a shader that cannot be read, say.
    Aborted,
}

impl Event {
    /// The event for a wait or a submission with this result.
    pub open spec fn spec_from_status<T>(result: Result<T, i32>) -> Event {
        match result {
            Ok(_) => Event::Done,
            Err(code) => Event::Failed { code },
        }
    }

    /// The event for an acquisition with this result: the image index and
    /// the success code, or the error code.
    pub open spec fn spec_from_acquire(result: Result<(u32, i32), i32>) -> Event {
        match result {
            Ok((image, _)) => Event::Acquired { image },
            Err(code) => if code == RESULT_OUT_OF_DATE {
                Event::OutOfDate
            } else {
                Event::Failed { code }
            },
        }
    }

    /// The event for a presentation with this result: the success code, or
    /// the error code.
    pub open spec fn spec_from_present(result: Result<i32, i32>) -> Event {
        match result {
            Ok(code) => Event::Presented { suboptimal: code == RESULT_SUBOPTIMAL },
            Err(code) => if code == RESULT_OUT_OF_DATE {
                Event::OutOfDate
            } else {
                Event::Failed { code }
            },
        }
    }

    /// The event for a rebuild with this result: the number of images
    /// made, or the error code.
    pub open spec fn spec_from_rebuild(result: Result<u32, i32>) -> Event {
        match result {
            Ok(image_count) => Event::Rebuilt { image_count },
            Err(code) => Event::Failed { code },
        }
    }

    /// Reads the result of a wait or a submission: every success counts
    /// alike, every error is reported with its code.
    pub fn from_status<T>(result: Result<T, i32>) -> (r: Event)
        ensures
            r == Event::spec_from_status(result),
    {
        match result {
            Ok(_) => Event::Done,
            Err(code) => Event::Failed { code },
        }
    }

    /// Reads the result of acquiring an image. Every success hands out the
    /// image, whatever its code; of the errors, only an out-of-date surface
    /// is not a failure.
    pub fn from_acquire(result: Result<(u32, i32), i32>) -> (r: Event)
        ensures
            r == Event::spec_from_acquire(result),
    {
        match result {
            Ok((image, _)) => Event::Acquired { image },
            Err(code) => {
                if code == RESULT_OUT_OF_DATE {
                    Event::OutOfDate
                } else {
                    Event::Failed { code }
                }
            },
        }
    }

    /// Reads the result of a presentation. A success is suboptimal where
    /// its code says so; of the errors, only an out-of-date surface is not
    /// a failure.
    pub fn from_present(result: Result<i32, i32>) -> (r: Event)
        ensures
            r == Event::spec_from_present(result),
    {
        match result {
            Ok(code) => Event::Presented { suboptimal: code == RESULT_SUBOPTIMAL },
            Err(code) => {
                if code == RESULT_OUT_OF_DATE {
                    Event::OutOfDate
                } else {
                    Event::Failed { code }
                }
            },
        }
    }

    /// Reads the result of a rebuild: the number of images made, or the
    /// code of the error.
    pub fn from_rebuild(result: Result<u32, i32>) -> (r: Event)
        ensures
            r == Event::spec_from_rebuild(result),
    {
        match result {
            Ok(image_count) => Event::Rebuilt { image_count },
            Err(code) => Event::Failed { code },
        }
    }
}

/// Mathematical model of a [`FrameDriver`].
pub ghost struct DriverView {
    /// The current frame slot.
    pub frame: usize,
    pub phase: Phase,
    /// A resize was signaled and has not led to a rebuild yet.
    pub resized: bool,
    /// The window has no area: no frame is begun.
    pub minimized: bool,
    /// Number of frames submitted so far.
    pub submitted: nat,
    pub sync: SyncView,
    pub generation: Generation,
}

impl DriverView {
    /// The slot after the current one.
    pub open spec fn next_frame(self) -> usize {
        if self.frame + 1 < self.sync.slots() {
            (self.frame + 1) as usize
        } else {
            0
        }
    }

    /// The driver stopped by `error`.
    pub open spec fn fail(self, error: FrameError) -> (DriverView, Action) {
        (DriverView { phase: Phase::Failed { error }, ..self }, Action::Abort { error })
    }

    /// The driver asking what the surface offers.
    pub open spec fn query(self) -> (DriverView, Action) {
        (DriverView { phase: Phase::QuerySurface, ..self }, Action::QuerySurface)
    }

    /// A frame is begun, or a rebuild that is owed.
    pub open spec fn begin(self) -> (DriverView, Action) {
        if self.minimized {
            (self, Action::Yield)
        } else if self.phase is Stale {
            self.query()
        } else {
            (DriverView { phase: Phase::WaitFence, ..self }, Action::WaitFence { slot: self.frame })
        }
    }

    /// The wait on the current slot's fence has returned.
    pub open spec fn fence_waited(self) -> (DriverView, Action) {
        (
            DriverView { phase: Phase::AcquireImage, sync: self.sync.waited(self.frame), ..self },
            Action::AcquireImage { slot: self.frame },
        )
    }

    /// The image is bound to the current slot and goes to submission.
    pub open spec fn bind_and_submit(self, image: usize) -> (DriverView, Action) {
        (
            DriverView {
                phase: Phase::Submit { image },
                sync: self.sync.bound(image, self.frame),
                ..self
            },
            Action::Submit { slot: self.frame, image },
        )
    }

    /// An image was acquired.
    pub open spec fn acquired(self, image: usize) -> (DriverView, Action) {
        if image >= self.sync.images() {
            self.fail(FrameError::NoSuchImage)
        } else {
            match self.sync.blocker(image, self.frame) {
                Some(owner) => (
                    DriverView { phase: Phase::WaitImageFence { image, owner }, ..self },
                    Action::WaitImageFence { slot: owner },
                ),
                None => self.bind_and_submit(image),
            }
        }
    }

    /// The wait on the fence that guarded the image has returned.
    pub open spec fn image_fence_waited(self, image: usize, owner: usize) -> (DriverView, Action) {
        DriverView { sync: self.sync.waited(owner), ..self }.bind_and_submit(image)
    }

    /// The fence was reset and the commands were submitted.
    pub open spec fn submitted_frame(self, image: usize) -> (DriverView, Action) {
        (
            DriverView {
                phase: Phase::Present { image },
                sync: self.sync.reset(self.frame).submitted(self.frame, image),
                submitted: self.submitted + 1,
                ..self
            },
            Action::Present { slot: self.frame, image },
        )
    }

    /// The frame is over: the driver advances to the next slot. Where the
    /// surface has changed or a resize was signaled, a rebuild follows.
    pub open spec fn advance(self, changed: bool) -> (DriverView, Action) {
        if self.resized || changed {
            DriverView { frame: self.next_frame(), resized: false, ..self }.query()
        } else {
            (DriverView { frame: self.next_frame(), phase: Phase::Idle, ..self }, Action::Yield)
        }
    }

    /// The surface has answered: the recreation controller decides.
    pub open spec fn surface_queried(self, support: SwapchainSupport, window: Extent) -> (
        DriverView,
        Action,
    ) {
        match spec_plan_recreation(support, window) {
            Recreation::Rebuild { config } => (
                DriverView { phase: Phase::Rebuild { config }, ..self },
                Action::Rebuild { config },
            ),
            Recreation::Deferred => (DriverView { phase: Phase::Stale, ..self }, Action::Yield),
            Recreation::Refused { error } => self.fail(
                match error {
                    ConfigError::NoPresentMode => FrameError::NoPresentMode,
                    _ => FrameError::NoSurfaceFormat,
                },
            ),
        }
    }

    /// The new generation stands.
    pub open spec fn rebuilt(self, config: SwapchainConfig, image_count: usize) -> (
        DriverView,
        Action,
    ) {
        if image_count == 0 {
            self.fail(FrameError::NoSuchImage)
        } else {
            (
                DriverView {
                    phase: Phase::Idle,
                    sync: self.sync.retired(image_count as nat),
                    generation: self.generation.spec_replaced(config, image_count),
                    ..self
                },
                Action::Yield,
            )
        }
    }

    /// The window was resized to `size`. Without area it counts as
    /// minimized and no frame is begun; else the resize is noted for the
    /// next presentation.
    pub open spec fn window_resized(self, size: Extent) -> DriverView {
        if size.is_degenerate() {
            DriverView { minimized: true, ..self }
        } else {
            DriverView { minimized: false, resized: true, ..self }
        }
    }

    /// A rebuild was asked for from outside: between frames the generation
    /// counts as stale at once, during a frame at its presentation.
    pub open spec fn rebuild_requested(self) -> DriverView {
        if self.phase is Idle {
            DriverView { phase: Phase::Stale, ..self }
        } else {
            DriverView { resized: true, ..self }
        }
    }

    /// The shell has closed the loop.
    pub open spec fn closed(self) -> DriverView {
        DriverView { phase: Phase::Closed, ..self }
    }

    /// What the event means in the phase the driver stands in, for an
    /// event that reports no failure. An event that does not answer the
    /// action asked for is fatal.
    pub open spec fn answer(self, event: Event) -> (DriverView, Action) {
        match (self.phase, event) {
            (Phase::Idle, Event::Begin) => self.begin(),
            (Phase::Stale, Event::Begin) => self.begin(),
            (Phase::WaitFence, Event::Done) => self.fence_waited(),
            (Phase::AcquireImage, Event::Acquired { image }) => self.acquired(image as usize),
            (Phase::AcquireImage, Event::OutOfDate) => self.query(),
            (Phase::WaitImageFence { image, owner }, Event::Done) => self.image_fence_waited(
                image,
                owner,
            ),
            (Phase::Submit { image }, Event::Done) => self.submitted_frame(image),
            (Phase::Present { .. }, Event::Presented { suboptimal }) => self.advance(suboptimal),
            (Phase::Present { .. }, Event::OutOfDate) => self.advance(true),
            (Phase::QuerySurface, Event::Surface { support, window }) => self.surface_queried(
                support,
                window,
            ),
            (Phase::Rebuild { config }, Event::Rebuilt { image_count }) => self.rebuilt(
                config,
                image_count as usize,
            ),
            _ => self.fail(FrameError::UnexpectedEvent),
        }
    }

    /// The transition function: the state after `event`, and the action
    /// that the shell is to perform next. A driver that has failed or was
    /// closed stays as it is. In every other phase a failure is fatal,
    /// whatever else is pending.
    pub open spec fn step(self, event: Event) -> (DriverView, Action) {
        match self.phase {
            Phase::Failed { error } => (self, Action::Abort { error }),
            Phase::Closed => (self, Action::Yield),
            _ => match event {
                Event::Failed { code } => self.fail(FrameError::Device { code }),
                Event::Aborted => self.fail(FrameError::Aborted),
                _ => self.answer(event),
            },
        }
    }

    /// The frame counter selects the slot: the current slot is the number
    /// of frames submitted, modulo the number of slots. While a frame is
    /// being presented it has been submitted already, and the counter is
    /// one ahead.
    pub open spec fn counter_ok(self) -> bool {
        match self.phase {
            Phase::Failed { .. } | Phase::Closed => true,
            Phase::Present { .. } => self.submitted >= 1 && self.frame == slot_of(
                (self.submitted - 1) as nat,
                self.sync.slots(),
            ),
            _ => self.frame == slot_of(self.submitted, self.sync.slots()),
        }
    }

    /// What holds of the fences and bindings in each phase.
    pub open spec fn phase_ok(self) -> bool {
        match self.phase {
            Phase::AcquireImage => self.sync.fences[self.frame as int] == FenceState::Signaled,
            Phase::WaitImageFence { image, owner } => {
                &&& self.sync.fences[self.frame as int] == FenceState::Signaled
                &&& image < self.sync.images()
                &&& self.sync.blocker(image, self.frame) == Some(owner)
            },
            Phase::Submit { image } => {
                &&& self.sync.fences[self.frame as int] == FenceState::Signaled
                &&& image < self.sync.images()
                &&& self.sync.bindings[image as int] == Some(self.frame)
            },
            Phase::Present { image } => self.sync.fences[self.frame as int] == (
            FenceState::Pending { image }),
            Phase::Rebuild { config } => !config.extent.is_degenerate(),
            _ => true,
        }
    }

    /// The invariant of the driver.
    pub open spec fn wf(self) -> bool {
        &&& self.sync.wf()
        &&& self.sync.all_will_signal()
        &&& self.generation.wf()
        &&& self.frame < self.sync.slots() <= usize::MAX
        &&& self.sync.images() == self.generation.image_count
        &&& self.counter_ok()
        &&& self.phase_ok()
    }
}

/// The slot that the frame counter selects after `count` frames.
pub open spec fn slot_of(count: nat, slots: nat) -> int {
    (count as int) % (slots as int)
}

/// Counting one more frame moves the slot that the counter selects to the
/// next slot, and back to the first after the last.
pub proof fn lemma_next_slot(count: nat, slots: nat)
    requires
        slots >= 1,
    ensures
        0 <= slot_of(count, slots) < slots,
        slot_of(count + 1, slots) == if slot_of(count, slots) + 1 < slots {
            slot_of(count, slots) + 1
        } else {
            0
        },
{
    let q = count as int / slots as int;
    let r = count as int % slots as int;
    lemma_fundamental_div_mod(count as int, slots as int);
    lemma_mod_bound(count as int, slots as int);
    if r + 1 < slots {
        assert(count + 1 == q * slots + (r + 1)) by (nonlinear_arith)
            requires
                count == slots * q + r,
        ;
        lemma_fundamental_div_mod_converse(count as int + 1, slots as int, q, r + 1);
    } else {
        assert(count + 1 == (q + 1) * slots + 0) by (nonlinear_arith)
            requires
                count == slots * q + r,
                r + 1 == slots,
        ;
        lemma_fundamental_div_mod_converse(count as int + 1, slots as int, q + 1, 0);
    }
}

/// Before any frame the counter selects the first slot.
pub proof fn lemma_first_slot(slots: nat)
    requires
        slots >= 1,
    ensures
        slot_of(0, slots) == 0,
{
    lemma_fundamental_div_mod_converse(0, slots as int, 0, 0);
}

impl DriverView {
    /// Every step keeps the invariant of the driver.
    pub proof fn lemma_step_wf(self, event: Event)
        requires
            self.wf(),
        ensures
            self.step(event).0.wf(),
    {
        match self.phase {
            Phase::WaitFence => {
                self.sync.lemma_waited(self.frame);
            },
            Phase::AcquireImage => {
                if let Event::Acquired { image } = event {
                    let image = image as usize;
                    if image < self.sync.images() && self.sync.blocker(image, self.frame) is None {
                        self.sync.lemma_bound(image, self.frame);
                    }
                }
            },
            Phase::WaitImageFence { image, owner } => {
                self.sync.lemma_waited(owner);
                self.sync.waited(owner).lemma_bound(image, self.frame);
            },
            Phase::Submit { image } => {
                self.sync.lemma_reset_submitted(self.frame, image);
                assert((self.submitted + 1 - 1) as nat == self.submitted);
            },
            Phase::Present { .. } => {
                let before = (self.submitted - 1) as nat;
                lemma_next_slot(before, self.sync.slots());
                assert((before + 1) as nat == self.submitted);
            },
            Phase::Rebuild { .. } => {
                if let Event::Rebuilt { image_count } = event {
                    self.sync.lemma_retired(image_count as nat);
                }
            },
            _ => {},
        }
    }
}

/// The frame driver. It owns the synchronization set and the live
/// generation, and decides what the shell does next. A driver made by
/// [`FrameDriver::new`] meets the invariant [`DriverView::wf`], and every
/// method keeps it.
pub struct FrameDriver {
    frame: usize,
    phase: Phase,
    resized: bool,
    minimized: bool,
    submitted: Ghost<nat>,
    sync: SyncSet,
    generation: Generation,
}

impl View for FrameDriver {
    type V = DriverView;

    closed spec fn view(&self) -> DriverView {
        DriverView {
            frame: self.frame,
            phase: self.phase,
            resized: self.resized,
            minimized: self.minimized,
            submitted: self.submitted@,
            sync: self.sync@,
            generation: self.generation,
        }
    }
}

impl FrameDriver {
    /// The driver at startup, between frames: the first slot is current,
    /// every fence is signaled and no image is bound. `None` where there is
    /// no frame slot, or where the generation has no image or no area.
    pub fn new(slots: usize, generation: Generation) -> (r: Option<FrameDriver>)
        ensures
            r is Some <==> slots >= 1 && generation.wf(),
            r matches Some(driver) ==> driver@ == (DriverView {
                frame: 0,
                phase: Phase::Idle,
                resized: false,
                minimized: false,
                submitted: 0,
                sync: SyncView::fresh(slots as nat, generation.image_count as nat),
                generation,
            }) && driver@.wf(),
    {
        if slots == 0 || generation.image_count == 0 || generation.config.extent.degenerate() {
            return None;
        }
        proof {
            lemma_first_slot(slots as nat);
        }
        Some(
            FrameDriver {
                frame: 0,
                phase: Phase::Idle,
                resized: false,
                minimized: false,
                submitted: Ghost(0),
                sync: SyncSet::new(slots, generation.image_count),
                generation,
            },
        )
    }

    /// The current frame slot.
    pub fn frame(&self) -> (r: usize)
        ensures
            r == self@.frame,
    {
        self.frame
    }

    /// Where the driver stands.
    pub fn phase(&self) -> (r: Phase)
        ensures
            r == self@.phase,
    {
        self.phase
    }

    /// True while a resize waits for the next presentation.
    pub fn resized(&self) -> (r: bool)
        ensures
            r == self@.resized,
    {
        self.resized
    }

    /// True while the window has no area.
    pub fn minimized(&self) -> (r: bool)
        ensures
            r == self@.minimized,
    {
        self.minimized
    }

    /// The live generation.
    pub fn generation(&self) -> (r: Generation)
        ensures
            r == self@.generation,
    {
        self.generation
    }

    /// The synchronization set.
    pub fn sync(&self) -> (r: &SyncSet)
        ensures
            r@ == self@.sync,
    {
        &self.sync
    }

    /// Notes that the window was resized to `size`. A window without area
    /// pauses the loop; any other size resumes it and makes the next
    /// presentation rebuild the generation.
    pub fn window_resized(&mut self, size: Extent)
        ensures
            final(self)@ == old(self)@.window_resized(size),
            old(self)@.wf() ==> final(self)@.wf(),
    {
        if size.degenerate() {
            self.minimized = true;
        } else {
            self.minimized = false;
            self.resized = true;
        }
    }

    /// Asks for a rebuild of the generation, as after a change of the
    /// shaders. No frame in progress is interrupted.
    pub fn request_rebuild(&mut self)
        ensures
            final(self)@ == old(self)@.rebuild_requested(),
            old(self)@.wf() ==> final(self)@.wf(),
    {
        match self.phase {
            Phase::Idle => {
                self.phase = Phase::Stale;
            },
            _ => {
                self.resized = true;
            },
        }
    }

    /// Closes the loop: from now on every step yields.
    pub fn close(&mut self)
        ensures
            final(self)@ == old(self)@.closed(),
            old(self)@.wf() ==> final(self)@.wf(),
    {
        self.phase = Phase::Closed;
    }

    /// Stops the driver.
    fn fail(&mut self, error: FrameError) -> (action: Action)
        ensures
            (final(self)@, action) == old(self)@.fail(error),
    {
        self.phase = Phase::Failed { error };
        Action::Abort { error }
    }

    /// Asks what the surface offers.
    fn query(&mut self) -> (action: Action)
        ensures
            (final(self)@, action) == old(self)@.query(),
    {
        self.phase = Phase::QuerySurface;
        Action::QuerySurface
    }

    /// Begins a frame, or the rebuild that is owed.
    fn begin(&mut self) -> (action: Action)
        ensures
            (final(self)@, action) == old(self)@.begin(),
    {
        if self.minimized {
            Action::Yield
        } else {
            match self.phase {
                Phase::Stale => self.query(),
                _ => {
                    self.phase = Phase::WaitFence;
                    Action::WaitFence { slot: self.frame }
                },
            }
        }
    }

    /// The wait on the current slot's fence has returned.
    fn fence_waited(&mut self) -> (action: Action)
        requires
            old(self)@.wf(),
            old(self)@.phase is WaitFence,
        ensures
            (final(self)@, action) == old(self)@.fence_waited(),
    {
        let ok = self.sync.wait(self.frame);
        assert(ok) by {
            assert(old(self)@.sync.will_signal(self.frame as int));
        }
        self.phase = Phase::AcquireImage;
        Action::AcquireImage { slot: self.frame }
    }

    /// Binds the image to the current slot and asks for its submission.
    fn bind_and_submit(&mut self, image: usize) -> (action: Action)
        requires
            old(self)@.sync.wf(),
            old(self)@.frame < old(self)@.sync.slots(),
            image < old(self)@.sync.images(),
            old(self)@.sync.blocker(image, old(self)@.frame) is None,
        ensures
            (final(self)@, action) == old(self)@.bind_and_submit(image),
    {
        self.sync.bind(image, self.frame);
        self.phase = Phase::Submit { image };
        Action::Submit { slot: self.frame, image }
    }

    /// An image was acquired: it is waited for where another slot still
    /// draws into it.
    fn acquired(&mut self, image: usize) -> (action: Action)
        requires
            old(self)@.wf(),
        ensures
            (final(self)@, action) == old(self)@.acquired(image),
    {
        if image >= self.sync.images() {
            self.fail(FrameError::NoSuchImage)
        } else {
            match self.sync.blocker(image, self.frame) {
                Some(owner) => {
                    self.phase = Phase::WaitImageFence { image, owner };
                    Action::WaitImageFence { slot: owner }
                },
                None => self.bind_and_submit(image),
            }
        }
    }

    /// The wait on the fence that guarded the image has returned.
    fn image_fence_waited(&mut self, image: usize, owner: usize) -> (action: Action)
        requires
            old(self)@.wf(),
            old(self)@.phase == (Phase::WaitImageFence { image, owner }),
        ensures
            (final(self)@, action) == old(self)@.image_fence_waited(image, owner),
    {
        proof {
            old(self)@.sync.lemma_waited(owner);
            assert(old(self)@.sync.will_signal(owner as int));
        }
        let ok = self.sync.wait(owner);
        assert(ok);
        assert(self@.sync.blocker(image, self.frame) is None);
        self.bind_and_submit(image)
    }

    /// The fence was reset and the commands were submitted.
    fn submitted_frame(&mut self, image: usize) -> (action: Action)
        requires
            old(self)@.wf(),
            old(self)@.phase == (Phase::Submit { image }),
        ensures
            (final(self)@, action) == old(self)@.submitted_frame(image),
    {
        proof {
            old(self)@.sync.lemma_reset_submitted(self.frame, image);
        }
        let reset = self.sync.reset(self.frame);
        let submitted = self.sync.submit(self.frame, image);
        assert(reset && submitted);
        self.submitted = Ghost((self.submitted@ + 1) as nat);
        self.phase = Phase::Present { image };
        Action::Present { slot: self.frame, image }
    }

    /// Advances to the next slot, and to a rebuild where one is due.
    fn advance(&mut self, changed: bool) -> (action: Action)
        requires
            old(self)@.wf(),
        ensures
            (final(self)@, action) == old(self)@.advance(changed),
    {
        let slots: usize = self.sync.slots();
        let next: usize = if self.frame + 1 < slots {
            self.frame + 1
        } else {
            0
        };
        self.frame = next;
        if self.resized || changed {
            self.resized = false;
            self.query()
        } else {
            self.phase = Phase::Idle;
            Action::Yield
        }
    }

    /// The surface has answered: the recreation controller decides.
    fn surface_queried(&mut self, support: SwapchainSupport, window: Extent) -> (action: Action)
        ensures
            (final(self)@, action) == old(self)@.surface_queried(support, window),
    {
        match plan_recreation(&support, window) {
            Recreation::Rebuild { config } => {
                self.phase = Phase::Rebuild { config };
                Action::Rebuild { config }
            },
            Recreation::Deferred => {
                self.phase = Phase::Stale;
                Action::Yield
            },
            Recreation::Refused { error } => {
                let error = match error {
                    ConfigError::NoPresentMode => FrameError::NoPresentMode,
                    _ => FrameError::NoSurfaceFormat,
                };
                self.fail(error)
            },
        }
    }

    /// The new generation stands and takes the place of the live one.
    fn rebuilt(&mut self, config: SwapchainConfig, image_count: usize) -> (action: Action)
        requires
            !config.extent.is_degenerate(),
        ensures
            (final(self)@, action) == old(self)@.rebuilt(config, image_count),
    {
        if replace_generation(&mut self.generation, &mut self.sync, config, image_count) {
            self.phase = Phase::Idle;
            Action::Yield
        } else {
            self.fail(FrameError::NoSuchImage)
        }
    }

    /// Takes the outcome of the last action and decides the next one.
    ///
    /// A failed device call is fatal in every phase, and so is an event
    /// that does not answer the action asked for. A surface that is out of
    /// date when an image is acquired ends the frame without advancing the
    /// slot; one that is out of date or suboptimal at presentation, or a
    /// pending resize at a presentation that succeeded, ends the frame
    /// normally. Either way the generation is rebuilt before the next image
    /// is acquired, unless the window has no area: then the rebuild waits.
    pub fn step(&mut self, event: Event) -> (action: Action)
        requires
            old(self)@.wf(),
        ensures
            (final(self)@, action) == old(self)@.step(event),
            final(self)@.wf(),
    {
        proof {
            old(self)@.lemma_step_wf(event);
        }
        match self.phase {
            Phase::Failed { error } => {
                return Action::Abort { error };
            },
            Phase::Closed => {
                return Action::Yield;
            },
            _ => {},
        }
        match event {
            Event::Failed { code } => self.fail(FrameError::Device { code }),
            Event::Aborted => self.fail(FrameError::Aborted),
            Event::Begin => match self.phase {
                Phase::Idle | Phase::Stale => self.begin(),
                _ => self.fail(FrameError::UnexpectedEvent),
            },
            Event::Done => match self.phase {
                Phase::WaitFence => self.fence_waited(),
                Phase::WaitImageFence { image, owner } => self.image_fence_waited(image, owner),
                Phase::Submit { image } => self.submitted_frame(image),
                _ => self.fail(FrameError::UnexpectedEvent),
            },
            Event::Acquired { image } => match self.phase {
                Phase::AcquireImage => self.acquired(image as usize),
                _ => self.fail(FrameError::UnexpectedEvent),
            },
            Event::OutOfDate => match self.phase {
                Phase::AcquireImage => self.query(),
                Phase::Present { .. } => self.advance(true),
                _ => self.fail(FrameError::UnexpectedEvent),
            },
            Event::Presented { suboptimal } => match self.phase {
                Phase::Present { .. } => self.advance(suboptimal),
                _ => self.fail(FrameError::UnexpectedEvent),
            },
            Event::Surface { support, window } => match self.phase {
                Phase::QuerySurface => self.surface_queried(support, window),
                _ => self.fail(FrameError::UnexpectedEvent),
            },
            Event::Rebuilt { image_count } => match self.phase {
                Phase::Rebuild { config } => self.rebuilt(config, image_count as usize),
                _ => self.fail(FrameError::UnexpectedEvent),
            },
        }
    }
}

} // verus!
