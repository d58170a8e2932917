//! Laws of the frame driver over whole runs: what a sequence of events
//! leads to, and which actions it asks of the shell.

use crate::frame::{lemma_next_slot, slot_of, Action, DriverView, Event, FrameError, Phase};
use crate::surface::{spec_clamp, Extent, SwapchainConfig, SwapchainSupport};
use crate::sync::FenceState;
use vstd::prelude::*;

verus! {

/// The state after the driver has taken `events` in turn, and the actions
/// it has asked for.
pub open spec fn run(d: DriverView, events: Seq<Event>) -> (DriverView, Seq<Action>)
    decreases events.len(),
{
    if events.len() == 0 {
        (d, Seq::empty())
    } else {
        let (next, action) = d.step(events.first());
        let (last, rest) = run(next, events.drop_first());
        (last, seq![action] + rest)
    }
}

/// A run keeps the invariant of the driver.
pub proof fn lemma_run_wf(d: DriverView, events: Seq<Event>)
    requires
        d.wf(),
    ensures
        run(d, events).0.wf(),
    decreases events.len(),
{
    if events.len() > 0 {
        d.lemma_step_wf(events.first());
        lemma_run_wf(d.step(events.first()).0, events.drop_first());
    }
}

/// A run over `event` followed by `rest` is a step, then the run over
/// `rest`.
pub proof fn lemma_run_cons(d: DriverView, event: Event, rest: Seq<Event>)
    ensures
        run(d, seq![event] + rest) == (
            run(d.step(event).0, rest).0,
            seq![d.step(event).1] + run(d.step(event).0, rest).1,
        ),
{
    let events = seq![event] + rest;
    assert(events.first() == event);
    assert(events.drop_first() =~= rest);
}

/// A run over `first` followed by `second` is the run over `first`, then
/// the run over `second` from where it ended.
pub proof fn lemma_run_concat(d: DriverView, first: Seq<Event>, second: Seq<Event>)
    ensures
        run(d, first + second) == (
            run(run(d, first).0, second).0,
            run(d, first).1 + run(run(d, first).0, second).1,
        ),
    decreases first.len(),
{
    if first.len() == 0 {
        assert(first + second =~= second);
        assert(Seq::<Action>::empty() + run(d, second).1 =~= run(d, second).1);
    } else {
        let next = d.step(first.first()).0;
        let action = d.step(first.first()).1;
        assert((first + second).first() == first.first());
        assert((first + second).drop_first() =~= first.drop_first() + second);
        lemma_run_concat(next, first.drop_first(), second);
        let mid = run(next, first.drop_first());
        assert(seq![action] + (mid.1 + run(mid.0, second).1) =~= (seq![action] + mid.1) + run(
            mid.0,
            second,
        ).1);
    }
}

/// The slot, if any, whose fence guards `image` when the driver in state
/// `d` acquires it in its next frame.
pub open spec fn frame_blocker(d: DriverView, image: u32) -> Option<usize> {
    d.sync.waited(d.frame).blocker(image as usize, d.frame)
}

/// What the shell reports in a frame that draws into `image` and meets no
/// change of the surface.
pub open spec fn frame_events(d: DriverView, image: u32) -> Seq<Event> {
    if frame_blocker(d, image) is Some {
        seq![
            Event::Begin,
            Event::Done,
            Event::Acquired { image },
            Event::Done,
            Event::Done,
            Event::Presented { suboptimal: false },
        ]
    } else {
        seq![
            Event::Begin,
            Event::Done,
            Event::Acquired { image },
            Event::Done,
            Event::Presented { suboptimal: false },
        ]
    }
}

/// What the driver asks of the shell in such a frame.
pub open spec fn frame_actions(d: DriverView, image: u32) -> Seq<Action> {
    let slot = d.frame;
    let image = image as usize;
    match frame_blocker(d, image as u32) {
        Some(owner) => seq![
            Action::WaitFence { slot },
            Action::AcquireImage { slot },
            Action::WaitImageFence { slot: owner },
            Action::Submit { slot, image },
            Action::Present { slot, image },
            Action::Yield,
        ],
        None => seq![
            Action::WaitFence { slot },
            Action::AcquireImage { slot },
            Action::Submit { slot, image },
            Action::Present { slot, image },
            Action::Yield,
        ],
    }
}

/// The state after such a frame: the slot has advanced, the image is bound
/// to the slot that drew into it, and that slot's fence awaits the work.
pub open spec fn after_frame(d: DriverView, image: u32) -> DriverView {
    let waited = d.sync.waited(d.frame);
    let unblocked = match frame_blocker(d, image) {
        Some(owner) => waited.waited(owner),
        None => waited,
    };
    DriverView {
        frame: d.next_frame(),
        phase: Phase::Idle,
        submitted: d.submitted + 1,
        sync: unblocked.bound(image as usize, d.frame).reset(d.frame).submitted(
            d.frame,
            image as usize,
        ),
        ..d
    }
}

/// The driver is between frames and nothing keeps it from drawing.
pub open spec fn ready(d: DriverView) -> bool {
    d.wf() && d.phase is Idle && !d.minimized && !d.resized
}

/// One successful frame: the fence of the current slot is waited on once,
/// before anything else; an image held by another slot's work is waited
/// for; the fence is reset and handed to one submission; and the slot
/// advances.
pub proof fn lemma_frame(d: DriverView, image: u32)
    requires
        ready(d),
        image < d.generation.image_count,
    ensures
        run(d, frame_events(d, image)) == (after_frame(d, image), frame_actions(d, image)),
        ready(after_frame(d, image)),
        after_frame(d, image).frame == d.next_frame(),
        after_frame(d, image).submitted == d.submitted + 1,
        after_frame(d, image).generation == d.generation,
        after_frame(d, image).sync.fences[d.frame as int] == (FenceState::Pending {
            image: image as usize,
        }),
        after_frame(d, image).sync.bindings[image as int] == Some(d.frame),
{
    let slot = d.frame;
    let index = image as usize;
    let e_acquired = Event::Acquired { image };
    let e_presented = Event::Presented { suboptimal: false };
    let none = Seq::<Event>::empty();

    let (d1, a1) = d.step(Event::Begin);
    d.lemma_step_wf(Event::Begin);
    let (d2, a2) = d1.step(Event::Done);
    d1.lemma_step_wf(Event::Done);
    let (d3, a3) = d2.step(e_acquired);
    d2.lemma_step_wf(e_acquired);
    assert(d2.sync == d.sync.waited(slot));

    match frame_blocker(d, image) {
        Some(owner) => {
            let (d4, a4) = d3.step(Event::Done);
            d3.lemma_step_wf(Event::Done);
            let (d5, a5) = d4.step(Event::Done);
            d4.lemma_step_wf(Event::Done);
            let (d6, a6) = d5.step(e_presented);
            d5.lemma_step_wf(e_presented);
            assert(d6 == after_frame(d, image));

            let t5 = seq![e_presented] + none;
            let t4 = seq![Event::Done] + t5;
            let t3 = seq![Event::Done] + t4;
            let t2 = seq![e_acquired] + t3;
            let t1 = seq![Event::Done] + t2;
            let t0 = seq![Event::Begin] + t1;
            assert(t0 =~= frame_events(d, image));
            lemma_run_cons(d5, e_presented, none);
            lemma_run_cons(d4, Event::Done, t5);
            lemma_run_cons(d3, Event::Done, t4);
            lemma_run_cons(d2, e_acquired, t3);
            lemma_run_cons(d1, Event::Done, t2);
            lemma_run_cons(d, Event::Begin, t1);
            assert(run(d, t0).1 =~= frame_actions(d, image));
        },
        None => {
            let (d4, a4) = d3.step(Event::Done);
            d3.lemma_step_wf(Event::Done);
            let (d5, a5) = d4.step(e_presented);
            d4.lemma_step_wf(e_presented);
            assert(d5 == after_frame(d, image));

            let t4 = seq![e_presented] + none;
            let t3 = seq![Event::Done] + t4;
            let t2 = seq![e_acquired] + t3;
            let t1 = seq![Event::Done] + t2;
            let t0 = seq![Event::Begin] + t1;
            assert(t0 =~= frame_events(d, image));
            lemma_run_cons(d4, e_presented, none);
            lemma_run_cons(d3, Event::Done, t4);
            lemma_run_cons(d2, e_acquired, t3);
            lemma_run_cons(d1, Event::Done, t2);
            lemma_run_cons(d, Event::Begin, t1);
            assert(run(d, t0).1 =~= frame_actions(d, image));
        },
    }
}

/// What the shell reports over consecutive successful frames that draw
/// into `images` in turn.
pub open spec fn frames_events(d: DriverView, images: Seq<u32>) -> Seq<Event>
    decreases images.len(),
{
    if images.len() == 0 {
        Seq::empty()
    } else {
        frame_events(d, images.first()) + frames_events(
            after_frame(d, images.first()),
            images.drop_first(),
        )
    }
}

/// What the driver asks of the shell over these frames.
pub open spec fn frames_actions(d: DriverView, images: Seq<u32>) -> Seq<Action>
    decreases images.len(),
{
    if images.len() == 0 {
        Seq::empty()
    } else {
        frame_actions(d, images.first()) + frames_actions(
            after_frame(d, images.first()),
            images.drop_first(),
        )
    }
}

/// The state after these frames.
pub open spec fn after_frames(d: DriverView, images: Seq<u32>) -> DriverView
    decreases images.len(),
{
    if images.len() == 0 {
        d
    } else {
        after_frames(after_frame(d, images.first()), images.drop_first())
    }
}

/// Follows the fence of `slot` through the actions of `trace`. `waited`
/// says whether the fence has been waited on, at the start of a frame,
/// since it was last reset and handed to a submission. The result says the
/// same at the end of the trace. It is `None` where the trace waits on the
/// fence twice without reusing it in between, or reuses it without a wait
/// since the last reuse.
pub open spec fn fence_cycle(trace: Seq<Action>, slot: usize, waited: bool) -> Option<bool>
    decreases trace.len(),
{
    if trace.len() == 0 {
        Some(waited)
    } else {
        match fence_cycle(trace.drop_last(), slot, waited) {
            None => None,
            Some(before) => fence_cycle_step(trace.last(), slot, before),
        }
    }
}

/// One action of the cycle of the fence of `slot`: a wait at the start of
/// a frame, then a submission that resets the fence and signals it again.
pub open spec fn fence_cycle_step(action: Action, slot: usize, waited: bool) -> Option<bool> {
    if action == (Action::WaitFence { slot }) {
        if waited {
            None
        } else {
            Some(true)
        }
    } else if action matches Action::Submit { slot: s, .. } && s == slot {
        if waited {
            Some(false)
        } else {
            None
        }
    } else {
        Some(waited)
    }
}

/// The cycle of a fence through two traces, one after the other, is its
/// cycle through the second from where the first left it.
pub proof fn lemma_fence_cycle_concat(
    first: Seq<Action>,
    second: Seq<Action>,
    slot: usize,
    waited: bool,
)
    ensures
        fence_cycle(first + second, slot, waited) == match fence_cycle(first, slot, waited) {
            Some(middle) => fence_cycle(second, slot, middle),
            None => None,
        },
    decreases second.len(),
{
    if second.len() == 0 {
        assert(first + second =~= first);
    } else {
        assert((first + second).drop_last() =~= first + second.drop_last());
        assert((first + second).last() == second.last());
        lemma_fence_cycle_concat(first, second.drop_last(), slot, waited);
    }
}

/// The cycle of a fence through a trace with one more action is one step
/// from where the trace left it.
pub proof fn lemma_fence_cycle_push(trace: Seq<Action>, action: Action, slot: usize, waited: bool)
    ensures
        fence_cycle(trace.push(action), slot, waited) == match fence_cycle(trace, slot, waited) {
            Some(before) => fence_cycle_step(action, slot, before),
            None => None,
        },
{
    assert(trace.push(action).drop_last() =~= trace);
    assert(trace.push(action).last() == action);
}

/// In one successful frame the driver asks for one wait on the fence of
/// the current slot, before anything else, and later for one submission
/// that reuses it. The fences of the other slots are neither waited on at
/// the start of the frame nor reused.
pub proof fn lemma_frame_cycle(d: DriverView, image: u32, slot: usize)
    ensures
        fence_cycle(frame_actions(d, image), slot, false) == Some(false),
        frame_actions(d, image)[0] == (Action::WaitFence { slot: d.frame }),
        slot != d.frame ==> fence_cycle(frame_actions(d, image), slot, true) == Some(true),
{
    let index = image as usize;
    let t0 = Seq::<Action>::empty();
    let t1 = t0.push(Action::WaitFence { slot: d.frame });
    let t2 = t1.push(Action::AcquireImage { slot: d.frame });
    let t3 = match frame_blocker(d, image) {
        Some(owner) => t2.push(Action::WaitImageFence { slot: owner }),
        None => t2,
    };
    let t4 = t3.push(Action::Submit { slot: d.frame, image: index });
    let t5 = t4.push(Action::Present { slot: d.frame, image: index });
    let t6 = t5.push(Action::Yield);
    assert(frame_actions(d, image) =~= t6);
    assert forall|start: bool|
        fence_cycle(t6, slot, start) == if slot == d.frame {
            if start {
                None
            } else {
                Some(false)
            }
        } else {
            Some(start)
        } by {
        lemma_fence_cycle_push(t0, Action::WaitFence { slot: d.frame }, slot, start);
        lemma_fence_cycle_push(t1, Action::AcquireImage { slot: d.frame }, slot, start);
        if let Some(owner) = frame_blocker(d, image) {
            lemma_fence_cycle_push(t2, Action::WaitImageFence { slot: owner }, slot, start);
        }
        lemma_fence_cycle_push(t3, Action::Submit { slot: d.frame, image: index }, slot, start);
        lemma_fence_cycle_push(t4, Action::Present { slot: d.frame, image: index }, slot, start);
        lemma_fence_cycle_push(t5, Action::Yield, slot, start);
    }
}

/// Over any number of consecutive successful frames the driver asks for
/// the actions of each frame in turn and ends between frames. The frame
/// counter has advanced by the number of frames and selects the current
/// slot. The fence of each slot goes through its cycle without a fault:
/// it is waited on once at the start of a frame before each reuse, each
/// reuse resets it before it is signaled again, and after the last frame
/// every fence that was waited on has been reused.
pub proof fn lemma_frames(d: DriverView, images: Seq<u32>, slot: usize)
    requires
        ready(d),
        forall|k: int| 0 <= k < images.len() ==> images[k] < d.generation.image_count,
    ensures
        run(d, frames_events(d, images)) == (after_frames(d, images), frames_actions(d, images)),
        ready(after_frames(d, images)),
        after_frames(d, images).generation == d.generation,
        after_frames(d, images).submitted == d.submitted + images.len(),
        after_frames(d, images).frame == slot_of(d.submitted + images.len(), d.sync.slots()),
        after_frames(d, images).sync.slots() == d.sync.slots(),
        fence_cycle(frames_actions(d, images), slot, false) == Some(false),
    decreases images.len(),
{
    if images.len() == 0 {
        assert(d.submitted + images.len() == d.submitted);
    } else {
        let image = images.first();
        let next = after_frame(d, image);
        let rest = images.drop_first();
        lemma_frame(d, image);
        lemma_next_slot(d.submitted, d.sync.slots());
        assert forall|k: int| 0 <= k < rest.len() implies rest[k] < next.generation.image_count by {
            assert(rest[k] == images[k + 1]);
        }
        lemma_frames(next, rest, slot);
        lemma_run_concat(d, frame_events(d, image), frames_events(next, rest));
        lemma_frame_cycle(d, image, slot);
        lemma_fence_cycle_concat(
            frame_actions(d, image),
            frames_actions(next, rest),
            slot,
            false,
        );
        assert(next.submitted + rest.len() == d.submitted + images.len());
    }
}

/// Whatever the driver asks for can be done: a fence that it waits on is
/// signaled or will be, a fence that it resets and submits with has been
/// waited on and is signaled, no slot has work in flight on the image that
/// is drawn into, and a generation that is built has images and an area.
pub proof fn lemma_actions_safe(d: DriverView, event: Event)
    requires
        d.wf(),
    ensures
        ({
            let (next, action) = d.step(event);
            match action {
                Action::WaitFence { slot } => slot == next.frame && next.sync.will_signal(
                    slot as int,
                ),
                Action::AcquireImage { slot } => slot == next.frame && next.sync.fences[slot as int]
                    == FenceState::Signaled,
                Action::WaitImageFence { slot } => slot != next.frame && slot < next.sync.slots()
                    && next.sync.fences[slot as int] is Pending,
                Action::Submit { slot, image } => {
                    &&& slot == next.frame
                    &&& next.sync.fences[slot as int] == FenceState::Signaled
                    &&& image < next.generation.image_count
                    &&& next.sync.bindings[image as int] == Some(slot)
                    &&& forall|other: int| !next.sync.in_flight(other, image)
                },
                Action::Present { slot, image } => next.sync.in_flight(slot as int, image),
                Action::Rebuild { config } => config.image_count >= 1
                    && !config.extent.is_degenerate(),
                _ => true,
            }
        }),
{
    d.lemma_step_wf(event);
    let (next, action) = d.step(event);
    if let Action::Submit { slot, image } = action {
        assert forall|other: int| !next.sync.in_flight(other, image) by {
            if next.sync.in_flight(other, image) {
                assert(next.sync.fences[other] is Pending);
            }
        }
    }
    if let Action::WaitFence { slot } = action {
        assert(d.sync.will_signal(d.frame as int));
    }
}

/// At most one slot has work in flight on any image, in every state that
/// the driver reaches.
pub proof fn lemma_single_owner(d: DriverView, image: usize, first: int, second: int)
    requires
        d.wf(),
        d.sync.in_flight(first, image),
        d.sync.in_flight(second, image),
    ensures
        first == second,
{
    d.sync.lemma_single_owner(image, first, second);
}

/// What the shell reports when it has read the surface and built a
/// generation of `image_count` images.
pub open spec fn rebuild_events(support: SwapchainSupport, window: Extent, image_count: u32) -> Seq<
    Event,
> {
    seq![Event::Surface { support, window }, Event::Rebuilt { image_count }]
}

/// The state after a rebuild: a new generation is live, the work in flight
/// has completed, and no image is bound.
pub open spec fn after_rebuild(d: DriverView, config: SwapchainConfig, image_count: u32) -> DriverView {
    DriverView {
        phase: Phase::Idle,
        sync: d.sync.retired(image_count as nat),
        generation: d.generation.spec_replaced(config, image_count as usize),
        ..d
    }
}

/// A rebuild replaces the generation by one with the configuration that
/// the selection rules give and the images that were made. Afterwards the
/// bindings are as many as the new images, and none is bound. The slot and
/// the frame counter stay as they were.
pub proof fn lemma_rebuild(
    d: DriverView,
    support: SwapchainSupport,
    window: Extent,
    image_count: u32,
)
    requires
        d.wf(),
        d.phase is QuerySurface,
        support.configure(window) is Ok,
        image_count >= 1,
    ensures
        ({
            let config = support.configure(window).unwrap();
            let after = after_rebuild(d, config, image_count);
            &&& run(d, rebuild_events(support, window, image_count)) == (
                after,
                seq![Action::Rebuild { config }, Action::Yield],
            )
            &&& after.wf()
            &&& after.generation.config == config
            &&& after.generation.image_count == image_count
            &&& after.generation.serial != d.generation.serial
            &&& after.sync.bindings.len() == image_count
            &&& forall|i: int| 0 <= i < image_count ==> after.sync.bindings[i] is None
            &&& forall|s: int| 0 <= s < after.sync.slots() ==> !(after.sync.fences[s] is Pending)
            &&& after.frame == d.frame
            &&& after.submitted == d.submitted
        }),
{
    let config = support.configure(window).unwrap();
    let e_surface = Event::Surface { support, window };
    let e_rebuilt = Event::Rebuilt { image_count };
    let none = Seq::<Event>::empty();
    let (d1, a1) = d.step(e_surface);
    d.lemma_step_wf(e_surface);
    let (d2, a2) = d1.step(e_rebuilt);
    d1.lemma_step_wf(e_rebuilt);
    d.sync.lemma_retired(image_count as nat);
    let t1 = seq![e_rebuilt] + none;
    let t0 = seq![e_surface] + t1;
    assert(t0 =~= rebuild_events(support, window, image_count));
    lemma_run_cons(d1, e_rebuilt, none);
    lemma_run_cons(d, e_surface, t1);
    assert(run(d, t0).1 =~= seq![Action::Rebuild { config }, Action::Yield]);
}

/// What the shell reports when the surface is found out of date at the
/// next acquisition and the generation is rebuilt.
pub open spec fn stale_frame_events(
    support: SwapchainSupport,
    window: Extent,
    image_count: u32,
) -> Seq<Event> {
    seq![Event::Begin, Event::Done, Event::OutOfDate] + rebuild_events(
        support,
        window,
        image_count,
    )
}

/// A frame that finds the surface out of date when it acquires an image
/// is given up: the generation is rebuilt, nothing is submitted, and the
/// next frame starts with a wait on the fence of the same slot.
pub proof fn lemma_stale_frame(
    d: DriverView,
    support: SwapchainSupport,
    window: Extent,
    image_count: u32,
)
    requires
        d.wf(),
        d.phase is Idle,
        !d.minimized,
        support.configure(window) is Ok,
        image_count >= 1,
    ensures
        ({
            let config = support.configure(window).unwrap();
            let waited = DriverView { sync: d.sync.waited(d.frame), ..d };
            let after = after_rebuild(waited, config, image_count);
            &&& run(d, stale_frame_events(support, window, image_count)) == (
                after,
                seq![
                    Action::WaitFence { slot: d.frame },
                    Action::AcquireImage { slot: d.frame },
                    Action::QuerySurface,
                    Action::Rebuild { config },
                    Action::Yield,
                ],
            )
            &&& after.wf()
            &&& after.frame == d.frame
            &&& after.submitted == d.submitted
            &&& after.step(Event::Begin).1 == (Action::WaitFence { slot: d.frame })
        }),
{
    let config = support.configure(window).unwrap();
    let rebuild = rebuild_events(support, window, image_count);
    let (d1, a1) = d.step(Event::Begin);
    d.lemma_step_wf(Event::Begin);
    let (d2, a2) = d1.step(Event::Done);
    d1.lemma_step_wf(Event::Done);
    let (d3, a3) = d2.step(Event::OutOfDate);
    d2.lemma_step_wf(Event::OutOfDate);
    lemma_rebuild(d3, support, window, image_count);
    let t2 = seq![Event::OutOfDate] + rebuild;
    let t1 = seq![Event::Done] + t2;
    let t0 = seq![Event::Begin] + t1;
    assert(t0 =~= stale_frame_events(support, window, image_count));
    lemma_run_cons(d2, Event::OutOfDate, rebuild);
    lemma_run_cons(d1, Event::Done, t2);
    lemma_run_cons(d, Event::Begin, t1);
    assert(run(d, t0).1 =~= seq![
        Action::WaitFence { slot: d.frame },
        Action::AcquireImage { slot: d.frame },
        Action::QuerySurface,
        Action::Rebuild { config },
        Action::Yield,
    ]);
}

/// Rebuilding twice in a row, with nothing submitted in between and the
/// surface and the window unchanged, gives the same generation both times
/// but for its serial: the same image count, format, extent and mode.
pub proof fn lemma_rebuild_idempotent(
    d: DriverView,
    support: SwapchainSupport,
    window: Extent,
    image_count: u32,
)
    requires
        d.wf(),
        d.phase is QuerySurface,
        !d.minimized,
        support.configure(window) is Ok,
        image_count >= 1,
    ensures
        ({
            let once = run(d, rebuild_events(support, window, image_count)).0;
            let twice = run(once, stale_frame_events(support, window, image_count)).0;
            &&& twice.generation.same_shape(once.generation)
            &&& twice.generation.config == once.generation.config
            &&& twice.sync == once.sync
            &&& twice.frame == once.frame
            &&& twice.submitted == once.submitted
        }),
{
    let config = support.configure(window).unwrap();
    lemma_rebuild(d, support, window, image_count);
    let once = after_rebuild(d, config, image_count);
    lemma_stale_frame(once, support, window, image_count);
    let waited = DriverView { sync: once.sync.waited(once.frame), ..once };
    let twice = after_rebuild(waited, config, image_count);
    assert(d.sync.will_signal(d.frame as int));
    assert(twice.sync.fences =~= once.sync.fences);
}

/// Rebuilding a generation on the surface and under the window that it was
/// made for, with as many images as before, gives one of the same image
/// count, format and extent: the selection rules depend on nothing else.
pub proof fn lemma_rebuild_round_trip(
    d: DriverView,
    support: SwapchainSupport,
    window: Extent,
    image_count: u32,
)
    requires
        d.wf(),
        d.phase is QuerySurface,
        support.configure(window) == Ok::<SwapchainConfig, crate::surface::ConfigError>(
            d.generation.config,
        ),
        image_count == d.generation.image_count,
    ensures
        ({
            let after = run(d, rebuild_events(support, window, image_count)).0;
            &&& after.generation.same_shape(d.generation)
            &&& after.generation.config == d.generation.config
        }),
{
    lemma_rebuild(d, support, window, image_count);
}

/// A window without area defers the rebuild: the live generation stays,
/// with its images, the driver rests between frames, and the next frame
/// asks the surface again instead of acquiring an image.
pub proof fn lemma_zero_area_defers(d: DriverView, support: SwapchainSupport, window: Extent)
    requires
        d.wf(),
        d.phase is QuerySurface,
        window.is_degenerate(),
    ensures
        ({
            let (next, action) = d.step(Event::Surface { support, window });
            &&& next == DriverView { phase: Phase::Stale, ..d }
            &&& action == Action::Yield
            &&& next.generation.image_count >= 1
            &&& next.step(Event::Begin) == if next.minimized {
                (next, Action::Yield)
            } else {
                (DriverView { phase: Phase::QuerySurface, ..d }, Action::QuerySurface)
            }
        }),
{
}

/// What the shell reports when a rebuild is deferred for a window without
/// area, here of size `empty`, and made at the next frame, when the window
/// has the size `window`.
pub open spec fn deferred_rebuild_events(
    deferred: SwapchainSupport,
    empty: Extent,
    support: SwapchainSupport,
    window: Extent,
    image_count: u32,
) -> Seq<Event> {
    seq![Event::Surface { support: deferred, window: empty }, Event::Begin] + rebuild_events(
        support,
        window,
        image_count,
    )
}

/// A rebuild that was deferred is made, not dropped. Once the window has
/// an area again, the next frame asks the surface anew, and the generation
/// that is then built has the size of the window brought within the limits
/// of the surface, at least one image, and as many bindings as images,
/// none of them bound.
pub proof fn lemma_deferred_rebuild(
    d: DriverView,
    deferred: SwapchainSupport,
    empty: Extent,
    support: SwapchainSupport,
    window: Extent,
    image_count: u32,
)
    requires
        d.wf(),
        d.phase is QuerySurface,
        !d.minimized,
        empty.is_degenerate(),
        !window.is_degenerate(),
        support.configure(window) is Ok,
        image_count >= 1,
    ensures
        ({
            let config = support.configure(window).unwrap();
            let limits = support.capabilities;
            let after = after_rebuild(d, config, image_count);
            &&& run(d, deferred_rebuild_events(deferred, empty, support, window, image_count)) == (
                after,
                seq![
                    Action::Yield,
                    Action::QuerySurface,
                    Action::Rebuild { config },
                    Action::Yield,
                ],
            )
            &&& after.wf()
            &&& after.generation.config.extent.width == spec_clamp(
                limits.min_image_extent.width,
                limits.max_image_extent.width,
                window.width,
            )
            &&& after.generation.config.extent.height == spec_clamp(
                limits.min_image_extent.height,
                limits.max_image_extent.height,
                window.height,
            )
            &&& after.generation.image_count == image_count
            &&& after.sync.bindings.len() == image_count
            &&& forall|i: int| 0 <= i < image_count ==> after.sync.bindings[i] is None
        }),
{
    let config = support.configure(window).unwrap();
    let e_empty = Event::Surface { support: deferred, window: empty };
    let rebuild = rebuild_events(support, window, image_count);
    let (d1, a1) = d.step(e_empty);
    d.lemma_step_wf(e_empty);
    lemma_zero_area_defers(d, deferred, empty);
    let (d2, a2) = d1.step(Event::Begin);
    d1.lemma_step_wf(Event::Begin);
    lemma_rebuild(d2, support, window, image_count);
    let t1 = seq![Event::Begin] + rebuild;
    let t0 = seq![e_empty] + t1;
    assert(t0 =~= deferred_rebuild_events(deferred, empty, support, window, image_count));
    lemma_run_cons(d1, Event::Begin, rebuild);
    lemma_run_cons(d, e_empty, t1);
    assert(run(d, t0).1 =~= seq![
        Action::Yield,
        Action::QuerySurface,
        Action::Rebuild { config },
        Action::Yield,
    ]);
    assert(after_rebuild(d2, config, image_count) == after_rebuild(d, config, image_count));
}

/// A presentation that reports a suboptimal or out-of-date surface, or
/// that succeeds while a resize is pending, completes the frame: the slot
/// advances with the frame counter, and the surface is queried for a
/// rebuild before any image is acquired.
pub proof fn lemma_present_changed(d: DriverView, event: Event)
    requires
        d.wf(),
        d.phase is Present,
        event == Event::OutOfDate || event == (Event::Presented { suboptimal: true }) || (d.resized
            && event is Presented),
    ensures
        d.step(event) == (
            DriverView {
                frame: d.next_frame(),
                resized: false,
                phase: Phase::QuerySurface,
                ..d
            },
            Action::QuerySurface,
        ),
        d.step(event).0.frame == slot_of(d.submitted, d.sync.slots()),
{
    lemma_next_slot((d.submitted - 1) as nat, d.sync.slots());
    assert(((d.submitted - 1) as nat + 1) as nat == d.submitted);
}

/// A failed device call is fatal wherever the driver stands and whatever
/// is pending, a resize too: the driver stops with the code of the
/// failure and asks for nothing more. The slot, the frame counter, the
/// generation, the fences and the bindings stay as they were, and no
/// rebuild is asked for.
pub proof fn lemma_failure_is_fatal(d: DriverView, code: i32, later: Event)
    requires
        !(d.phase is Failed),
        !(d.phase is Closed),
    ensures
        ({
            let error = FrameError::Device { code };
            let stopped = DriverView { phase: Phase::Failed { error }, ..d };
            &&& d.step(Event::Failed { code }) == (stopped, Action::Abort { error })
            &&& stopped.step(later) == (stopped, Action::Abort { error })
        }),
{
}

} // verus!
