use frameloop::frame::{
    Action, Event, FrameDriver, FrameError, Phase, RESULT_OUT_OF_DATE, RESULT_SUBOPTIMAL,
};
use frameloop::generation::Generation;
use frameloop::surface::{
    Extent, SurfaceCapabilities, SurfaceFormat, SwapchainConfig, SwapchainSupport,
};
use frameloop::sync::FenceState;
use vulkanalia::vk;

fn config(width: u32, height: u32) -> SwapchainConfig {
    SwapchainConfig {
        format: SurfaceFormat { format: 50, color_space: 0 },
        present_mode: 2,
        extent: Extent { width, height },
        image_count: 3,
    }
}

fn support() -> SwapchainSupport {
    SwapchainSupport {
        capabilities: SurfaceCapabilities {
            min_image_count: 2,
            max_image_count: 8,
            min_image_extent: Extent { width: 1, height: 1 },
            max_image_extent: Extent { width: 4096, height: 4096 },
        },
        formats: vec![SurfaceFormat { format: 50, color_space: 0 }],
        present_modes: vec![2],
    }
}

fn driver(slots: usize, images: usize) -> FrameDriver {
    FrameDriver::new(slots, Generation::new(config(1024, 768), images).unwrap()).unwrap()
}

fn surface(width: u32, height: u32) -> Event {
    Event::Surface { support: support(), window: Extent { width, height } }
}

/// Plays the shell for one frame in which every call succeeds.
fn run_frame(d: &mut FrameDriver, image: u32) -> Vec<Action> {
    let mut actions = Vec::new();
    let mut action = d.step(Event::Begin);
    loop {
        actions.push(action);
        action = match action {
            Action::WaitFence { .. } | Action::WaitImageFence { .. } | Action::Submit { .. } => {
                d.step(Event::Done)
            }
            Action::AcquireImage { .. } => d.step(Event::Acquired { image }),
            Action::Present { .. } => d.step(Event::Presented { suboptimal: false }),
            _ => break,
        };
    }
    actions
}

/// Plays the shell for a rebuild that makes `image_count` images.
fn run_rebuild(d: &mut FrameDriver, width: u32, height: u32, image_count: u32) -> Vec<Action> {
    let first = d.step(surface(width, height));
    let second = d.step(Event::Rebuilt { image_count });
    vec![first, second]
}

fn pending_on(d: &FrameDriver, image: usize) -> usize {
    let mut count = 0;
    for slot in 0..d.sync().slots() {
        if d.sync().fence(slot) == (FenceState::Pending { image }) {
            count += 1;
        }
    }
    count
}

#[test]
fn a_driver_needs_a_slot_and_a_generation_with_images() {
    let good = Generation::new(config(1024, 768), 3).unwrap();
    assert!(FrameDriver::new(0, good).is_none());
    assert!(FrameDriver::new(1, good).is_some());
    let empty = Generation { serial: 0, config: config(1024, 768), image_count: 0 };
    assert!(FrameDriver::new(2, empty).is_none());
    let flat = Generation { serial: 0, config: config(1024, 0), image_count: 3 };
    assert!(FrameDriver::new(2, flat).is_none());
}

#[test]
fn driver_starts_between_frames_on_the_first_slot() {
    let d = driver(2, 3);
    assert_eq!(d.frame(), 0);
    assert_eq!(d.phase(), Phase::Idle);
    assert!(!d.resized());
    assert!(!d.minimized());
    assert_eq!(d.generation().image_count, 3);
    assert_eq!(d.generation().serial, 0);
    assert_eq!(d.sync().slots(), 2);
    assert_eq!(d.sync().images(), 3);
}

#[test]
fn a_frame_goes_through_every_state_in_order() {
    let mut d = driver(2, 3);
    assert_eq!(d.step(Event::Begin), Action::WaitFence { slot: 0 });
    assert_eq!(d.phase(), Phase::WaitFence);
    assert_eq!(d.step(Event::Done), Action::AcquireImage { slot: 0 });
    assert_eq!(d.phase(), Phase::AcquireImage);
    assert_eq!(d.step(Event::Acquired { image: 1 }), Action::Submit { slot: 0, image: 1 });
    assert_eq!(d.phase(), Phase::Submit { image: 1 });
    assert_eq!(d.sync().in_use_fence(1), Some(0));
    assert_eq!(d.step(Event::Done), Action::Present { slot: 0, image: 1 });
    assert_eq!(d.phase(), Phase::Present { image: 1 });
    assert_eq!(d.sync().fence(0), FenceState::Pending { image: 1 });
    assert_eq!(d.step(Event::Presented { suboptimal: false }), Action::Yield);
    assert_eq!(d.phase(), Phase::Idle);
    assert_eq!(d.frame(), 1);
}

#[test]
fn slots_take_turns() {
    let mut d = driver(2, 3);
    let mut slots = Vec::new();
    for k in 0..6u32 {
        slots.push(d.frame());
        run_frame(&mut d, k % 3);
    }
    assert_eq!(slots, vec![0, 1, 0, 1, 0, 1]);
    assert_eq!(d.frame(), 0);
}

#[test]
fn three_slots_wrap_after_the_third() {
    let mut d = driver(3, 4);
    let mut slots = Vec::new();
    for k in 0..7u32 {
        slots.push(d.frame());
        run_frame(&mut d, k % 4);
    }
    assert_eq!(slots, vec![0, 1, 2, 0, 1, 2, 0]);
}

#[test]
fn a_single_slot_is_always_current() {
    let mut d = driver(1, 2);
    for k in 0..4u32 {
        assert_eq!(d.frame(), 0);
        let actions = run_frame(&mut d, k % 2);
        assert_eq!(actions[0], Action::WaitFence { slot: 0 });
    }
}

#[test]
fn an_image_held_by_the_other_slot_is_waited_for() {
    let mut d = driver(2, 3);
    run_frame(&mut d, 0);
    // Slot 1 gets the image that slot 0 still draws into.
    let actions = run_frame(&mut d, 0);
    assert_eq!(
        actions,
        vec![
            Action::WaitFence { slot: 1 },
            Action::AcquireImage { slot: 1 },
            Action::WaitImageFence { slot: 0 },
            Action::Submit { slot: 1, image: 0 },
            Action::Present { slot: 1, image: 0 },
            Action::Yield,
        ]
    );
    assert_eq!(d.sync().fence(0), FenceState::Signaled);
    assert_eq!(d.sync().fence(1), FenceState::Pending { image: 0 });
    assert_eq!(d.sync().in_use_fence(0), Some(1));
}

#[test]
fn an_image_last_used_by_the_same_slot_needs_no_second_wait() {
    let mut d = driver(2, 3);
    run_frame(&mut d, 0);
    run_frame(&mut d, 1);
    // Slot 0 again, with the image it drew into last time.
    let actions = run_frame(&mut d, 0);
    assert_eq!(
        actions,
        vec![
            Action::WaitFence { slot: 0 },
            Action::AcquireImage { slot: 0 },
            Action::Submit { slot: 0, image: 0 },
            Action::Present { slot: 0, image: 0 },
            Action::Yield,
        ]
    );
}

#[test]
fn each_fence_is_waited_on_once_for_each_reuse() {
    let mut d = driver(2, 3);
    let images = [0u32, 1, 2, 0, 0, 2, 1, 1, 0, 2];
    let mut trace = Vec::new();
    for image in images {
        trace.extend(run_frame(&mut d, image));
    }
    for slot in 0..2usize {
        let waits = trace.iter().filter(|a| **a == Action::WaitFence { slot }).count();
        let submits = trace
            .iter()
            .filter(|a| matches!(a, Action::Submit { slot: s, .. } if *s == slot))
            .count();
        assert_eq!(waits, 5);
        assert_eq!(submits, 5);
    }
    // Between two submissions with a slot's fence lies a wait on it.
    for slot in 0..2usize {
        let mut waited = false;
        for action in &trace {
            match action {
                Action::WaitFence { slot: s } if *s == slot => {
                    assert!(!waited);
                    waited = true;
                }
                Action::Submit { slot: s, .. } if *s == slot => {
                    assert!(waited);
                    waited = false;
                }
                _ => {}
            }
        }
    }
    assert_eq!(d.frame(), 0);
}

#[test]
fn no_image_has_work_in_flight_from_two_slots() {
    let mut d = driver(3, 2);
    let images = [0u32, 0, 0, 1, 0, 1, 1, 1, 0];
    for image in images {
        let mut action = d.step(Event::Begin);
        loop {
            for i in 0..2 {
                assert!(pending_on(&d, i) <= 1);
            }
            action = match action {
                Action::WaitFence { .. }
                | Action::WaitImageFence { .. }
                | Action::Submit { .. } => d.step(Event::Done),
                Action::AcquireImage { .. } => d.step(Event::Acquired { image }),
                Action::Present { .. } => d.step(Event::Presented { suboptimal: false }),
                _ => break,
            };
        }
    }
}

#[test]
fn out_of_date_on_acquire_in_the_third_frame() {
    let mut d = driver(2, 3);
    run_frame(&mut d, 0);
    run_frame(&mut d, 1);
    assert_eq!(d.frame(), 0);
    let mut rebuilds = 0;
    assert_eq!(d.step(Event::Begin), Action::WaitFence { slot: 0 });
    assert_eq!(d.step(Event::Done), Action::AcquireImage { slot: 0 });
    assert_eq!(d.step(Event::OutOfDate), Action::QuerySurface);
    let action = d.step(surface(800, 600));
    if let Action::Rebuild { .. } = action {
        rebuilds += 1;
    }
    assert_eq!(
        action,
        Action::Rebuild {
            config: SwapchainConfig {
                format: SurfaceFormat { format: 50, color_space: 0 },
                present_mode: 2,
                extent: Extent { width: 800, height: 600 },
                image_count: 3,
            }
        }
    );
    assert_eq!(d.step(Event::Rebuilt { image_count: 3 }), Action::Yield);
    assert_eq!(rebuilds, 1);
    // The frame that was given up did not advance the counter.
    assert_eq!(d.frame(), 0);
    assert_eq!(d.phase(), Phase::Idle);
    assert_eq!(d.step(Event::Begin), Action::WaitFence { slot: 0 });
}

#[test]
fn suboptimal_present_completes_the_frame_and_rebuilds() {
    let mut d = driver(2, 3);
    assert_eq!(d.step(Event::Begin), Action::WaitFence { slot: 0 });
    assert_eq!(d.step(Event::Done), Action::AcquireImage { slot: 0 });
    assert_eq!(d.step(Event::Acquired { image: 2 }), Action::Submit { slot: 0, image: 2 });
    assert_eq!(d.step(Event::Done), Action::Present { slot: 0, image: 2 });
    assert_eq!(d.step(Event::Presented { suboptimal: true }), Action::QuerySurface);
    // The counter has advanced.
    assert_eq!(d.frame(), 1);
    // No image is acquired before the rebuild has run.
    let actions = run_rebuild(&mut d, 1024, 768, 3);
    assert_eq!(actions[1], Action::Yield);
    assert!(matches!(actions[0], Action::Rebuild { .. }));
    assert_eq!(d.step(Event::Begin), Action::WaitFence { slot: 1 });
    assert_eq!(d.step(Event::Done), Action::AcquireImage { slot: 1 });
}

#[test]
fn out_of_date_present_completes_the_frame_and_rebuilds() {
    let mut d = driver(2, 3);
    d.step(Event::Begin);
    d.step(Event::Done);
    d.step(Event::Acquired { image: 0 });
    d.step(Event::Done);
    assert_eq!(d.step(Event::OutOfDate), Action::QuerySurface);
    assert_eq!(d.frame(), 1);
    assert_eq!(d.phase(), Phase::QuerySurface);
}

#[test]
fn a_resize_is_taken_up_at_the_next_presentation() {
    let mut d = driver(2, 3);
    d.step(Event::Begin);
    d.step(Event::Done);
    d.window_resized(Extent { width: 640, height: 480 });
    assert!(d.resized());
    // The frame in progress goes on.
    assert_eq!(d.step(Event::Acquired { image: 0 }), Action::Submit { slot: 0, image: 0 });
    assert_eq!(d.step(Event::Done), Action::Present { slot: 0, image: 0 });
    assert_eq!(d.step(Event::Presented { suboptimal: false }), Action::QuerySurface);
    assert!(!d.resized());
    assert_eq!(d.frame(), 1);
    let actions = run_rebuild(&mut d, 640, 480, 4);
    assert!(matches!(actions[0], Action::Rebuild { config } if config.extent == Extent { width: 640, height: 480 }));
    assert_eq!(d.generation().image_count, 4);
    assert_eq!(d.generation().config.extent, Extent { width: 640, height: 480 });
}

#[test]
fn a_failed_presentation_is_fatal_with_a_resize_pending() {
    let mut d = driver(2, 3);
    d.window_resized(Extent { width: 640, height: 480 });
    d.step(Event::Begin);
    d.step(Event::Done);
    d.step(Event::Acquired { image: 0 });
    d.step(Event::Done);
    let before = d.generation();
    let error = FrameError::Device { code: -4 };
    assert_eq!(d.step(Event::Failed { code: -4 }), Action::Abort { error });
    assert_eq!(d.phase(), Phase::Failed { error });
    assert_eq!(d.frame(), 0);
    assert!(d.resized());
    assert_eq!(d.generation(), before);
    assert_eq!(d.sync().fence(0), FenceState::Pending { image: 0 });
    assert_eq!(d.sync().in_use_fence(0), Some(0));
    assert_eq!(d.step(Event::Begin), Action::Abort { error });
}

#[test]
fn a_failure_leaves_slot_generation_and_bindings_alone() {
    // One driver for each point at which a device call can fail.
    for fail_at in 0..5 {
        let mut d = driver(2, 3);
        run_frame(&mut d, 0);
        // The second frame, on slot 1, draws into the image that slot 0 holds.
        let events = [
            Event::Begin,
            Event::Done,
            Event::Acquired { image: 0 },
            Event::Done,
            Event::Done,
        ];
        for event in events.into_iter().take(fail_at + 1) {
            assert!(!matches!(d.step(event), Action::Abort { .. }));
        }
        let generation = d.generation();
        let fences = [d.sync().fence(0), d.sync().fence(1)];
        let bound = [d.sync().in_use_fence(0), d.sync().in_use_fence(1), d.sync().in_use_fence(2)];
        let error = FrameError::Device { code: -4 };
        assert_eq!(d.step(Event::Failed { code: -4 }), Action::Abort { error });
        assert_eq!(d.frame(), 1);
        assert_eq!(d.generation(), generation);
        assert_eq!([d.sync().fence(0), d.sync().fence(1)], fences);
        assert_eq!(
            [d.sync().in_use_fence(0), d.sync().in_use_fence(1), d.sync().in_use_fence(2)],
            bound
        );
    }
}

#[test]
fn a_shell_that_gives_up_stops_the_driver() {
    let mut d = driver(2, 3);
    d.request_rebuild();
    d.step(Event::Begin);
    assert!(matches!(d.step(surface(800, 600)), Action::Rebuild { .. }));
    let error = FrameError::Aborted;
    assert_eq!(d.step(Event::Aborted), Action::Abort { error });
    assert_eq!(d.phase(), Phase::Failed { error });
    assert_eq!(d.generation().serial, 0);
    assert_eq!(d.step(Event::Rebuilt { image_count: 3 }), Action::Abort { error });

    let mut d = driver(2, 3);
    assert_eq!(d.step(Event::Aborted), Action::Abort { error });
}

#[test]
fn a_deferred_rebuild_is_made_at_the_size_of_the_window() {
    let mut d = driver(2, 3);
    run_frame(&mut d, 1);
    d.step(Event::Begin);
    d.step(Event::Done);
    assert_eq!(d.step(Event::OutOfDate), Action::QuerySurface);
    assert_eq!(d.step(surface(0, 0)), Action::Yield);
    assert_eq!(d.step(Event::Begin), Action::QuerySurface);
    // The window is larger than the surface allows in one direction.
    let action = d.step(surface(5000, 300));
    assert!(matches!(
        action,
        Action::Rebuild { config } if config.extent == Extent { width: 4096, height: 300 }
    ));
    assert_eq!(d.step(Event::Rebuilt { image_count: 4 }), Action::Yield);
    assert_eq!(d.generation().config.extent, Extent { width: 4096, height: 300 });
    assert_eq!(d.generation().image_count, 4);
    assert_eq!(d.sync().images(), 4);
    for image in 0..4 {
        assert_eq!(d.sync().in_use_fence(image), None);
    }
}

#[test]
fn a_failed_presentation_is_fatal() {
    let mut d = driver(2, 3);
    d.step(Event::Begin);
    d.step(Event::Done);
    d.step(Event::Acquired { image: 0 });
    d.step(Event::Done);
    let error = FrameError::Device { code: -4 };
    assert_eq!(d.step(Event::Failed { code: -4 }), Action::Abort { error });
    assert_eq!(d.phase(), Phase::Failed { error });
    assert_eq!(d.frame(), 0);
}

#[test]
fn a_failed_wait_is_fatal_for_good() {
    let mut d = driver(2, 3);
    d.step(Event::Begin);
    let error = FrameError::Device { code: -4 };
    assert_eq!(d.step(Event::Failed { code: -4 }), Action::Abort { error });
    assert_eq!(d.step(Event::Begin), Action::Abort { error });
    assert_eq!(d.step(Event::Done), Action::Abort { error });
    assert_eq!(d.step(surface(10, 10)), Action::Abort { error });
    assert_eq!(d.phase(), Phase::Failed { error });
}

#[test]
fn a_failed_acquire_submit_or_rebuild_is_fatal() {
    let mut d = driver(2, 3);
    d.step(Event::Begin);
    d.step(Event::Done);
    assert_eq!(
        d.step(Event::Failed { code: -1 }),
        Action::Abort { error: FrameError::Device { code: -1 } }
    );

    let mut d = driver(2, 3);
    d.step(Event::Begin);
    d.step(Event::Done);
    d.step(Event::Acquired { image: 0 });
    assert_eq!(
        d.step(Event::Failed { code: -2 }),
        Action::Abort { error: FrameError::Device { code: -2 } }
    );

    let mut d = driver(2, 3);
    d.request_rebuild();
    d.step(Event::Begin);
    d.step(surface(100, 100));
    assert_eq!(
        d.step(Event::Failed { code: -3 }),
        Action::Abort { error: FrameError::Device { code: -3 } }
    );
}

#[test]
fn an_event_that_answers_nothing_is_fatal() {
    let mut d = driver(2, 3);
    let error = FrameError::UnexpectedEvent;
    assert_eq!(d.step(Event::Done), Action::Abort { error });
    let mut d = driver(2, 3);
    d.step(Event::Begin);
    assert_eq!(d.step(Event::Acquired { image: 0 }), Action::Abort { error });
    let mut d = driver(2, 3);
    d.step(Event::Begin);
    d.step(Event::Done);
    assert_eq!(d.step(Event::Presented { suboptimal: false }), Action::Abort { error });
}

#[test]
fn an_image_that_does_not_exist_is_fatal() {
    let mut d = driver(2, 3);
    d.step(Event::Begin);
    d.step(Event::Done);
    let error = FrameError::NoSuchImage;
    assert_eq!(d.step(Event::Acquired { image: 3 }), Action::Abort { error });
}

#[test]
fn a_minimized_window_pauses_the_loop() {
    let mut d = driver(2, 3);
    d.window_resized(Extent { width: 0, height: 0 });
    assert!(d.minimized());
    assert!(!d.resized());
    assert_eq!(d.step(Event::Begin), Action::Yield);
    assert_eq!(d.phase(), Phase::Idle);
    d.window_resized(Extent { width: 0, height: 300 });
    assert!(d.minimized());
    assert_eq!(d.step(Event::Begin), Action::Yield);
    d.window_resized(Extent { width: 400, height: 300 });
    assert!(!d.minimized());
    assert!(d.resized());
    assert_eq!(d.step(Event::Begin), Action::WaitFence { slot: 0 });
}

#[test]
fn a_window_without_area_defers_the_rebuild() {
    let mut d = driver(2, 3);
    d.step(Event::Begin);
    d.step(Event::Done);
    assert_eq!(d.step(Event::OutOfDate), Action::QuerySurface);
    let before = d.generation();
    assert_eq!(d.step(surface(0, 0)), Action::Yield);
    assert_eq!(d.phase(), Phase::Stale);
    assert_eq!(d.generation(), before);
    assert_eq!(d.generation().image_count, 3);
    // The next frame asks again instead of acquiring an image.
    assert_eq!(d.step(Event::Begin), Action::QuerySurface);
    assert_eq!(d.step(surface(0, 600)), Action::Yield);
    assert_eq!(d.phase(), Phase::Stale);
    assert_eq!(d.step(Event::Begin), Action::QuerySurface);
    assert!(matches!(d.step(surface(800, 600)), Action::Rebuild { .. }));
    assert_eq!(d.step(Event::Rebuilt { image_count: 3 }), Action::Yield);
    assert_eq!(d.generation().config.extent, Extent { width: 800, height: 600 });
    assert_eq!(d.step(Event::Begin), Action::WaitFence { slot: 0 });
}

#[test]
fn a_rebuild_without_images_is_fatal() {
    let mut d = driver(2, 3);
    d.request_rebuild();
    d.step(Event::Begin);
    d.step(surface(800, 600));
    let error = FrameError::NoSuchImage;
    assert_eq!(d.step(Event::Rebuilt { image_count: 0 }), Action::Abort { error });
    assert_eq!(d.generation().image_count, 3);
}

#[test]
fn a_surface_without_formats_or_modes_is_fatal() {
    let mut d = driver(2, 3);
    d.request_rebuild();
    d.step(Event::Begin);
    let mut s = support();
    s.formats.clear();
    let event = Event::Surface { support: s, window: Extent { width: 800, height: 600 } };
    assert_eq!(d.step(event), Action::Abort { error: FrameError::NoSurfaceFormat });

    let mut d = driver(2, 3);
    d.request_rebuild();
    d.step(Event::Begin);
    let mut s = support();
    s.present_modes.clear();
    let event = Event::Surface { support: s, window: Extent { width: 800, height: 600 } };
    assert_eq!(d.step(event), Action::Abort { error: FrameError::NoPresentMode });
}

#[test]
fn after_a_rebuild_the_bindings_match_the_new_images() {
    let mut d = driver(2, 3);
    run_frame(&mut d, 0);
    run_frame(&mut d, 1);
    assert_eq!(d.sync().in_use_fence(0), Some(0));
    assert_eq!(d.sync().in_use_fence(1), Some(1));
    d.request_rebuild();
    assert_eq!(d.phase(), Phase::Stale);
    assert_eq!(d.step(Event::Begin), Action::QuerySurface);
    run_rebuild(&mut d, 800, 600, 5);
    assert_eq!(d.sync().images(), 5);
    assert_eq!(d.generation().image_count, 5);
    for image in 0..5 {
        assert_eq!(d.sync().in_use_fence(image), None);
    }
    for slot in 0..2 {
        assert_eq!(d.sync().fence(slot), FenceState::Signaled);
    }
    assert_eq!(d.generation().serial, 1);
}

#[test]
fn rebuilding_twice_gives_the_same_generation() {
    let mut d = driver(2, 3);
    d.step(Event::Begin);
    d.step(Event::Done);
    d.step(Event::OutOfDate);
    run_rebuild(&mut d, 800, 600, 4);
    let once = d.generation();
    let frame = d.frame();
    // Out of date again, with nothing submitted in between.
    d.step(Event::Begin);
    d.step(Event::Done);
    d.step(Event::OutOfDate);
    run_rebuild(&mut d, 800, 600, 4);
    let twice = d.generation();
    assert_eq!(twice.image_count, once.image_count);
    assert_eq!(twice.config, once.config);
    assert_eq!(twice.config.extent, Extent { width: 800, height: 600 });
    assert_eq!(d.frame(), frame);
    assert_ne!(twice.serial, once.serial);
}

#[test]
fn rebuilding_at_the_same_size_gives_the_first_generation_again() {
    let window = Extent { width: 1024, height: 768 };
    let first = frameloop::surface::configure_swapchain(&support(), window).unwrap();
    let mut d = FrameDriver::new(2, Generation::new(first, 3).unwrap()).unwrap();
    let initial = d.generation();
    run_frame(&mut d, 0);
    d.request_rebuild();
    d.step(Event::Begin);
    run_rebuild(&mut d, 1024, 768, 3);
    let rebuilt = d.generation();
    assert_eq!(rebuilt.image_count, initial.image_count);
    assert_eq!(rebuilt.config.format, initial.config.format);
    assert_eq!(rebuilt.config.extent, initial.config.extent);
    assert_eq!(rebuilt.config, initial.config);
}

#[test]
fn a_rebuild_asked_for_during_a_frame_waits_for_its_presentation() {
    let mut d = driver(2, 3);
    d.step(Event::Begin);
    d.request_rebuild();
    assert_eq!(d.phase(), Phase::WaitFence);
    assert!(d.resized());
    d.step(Event::Done);
    d.step(Event::Acquired { image: 0 });
    d.step(Event::Done);
    assert_eq!(d.step(Event::Presented { suboptimal: false }), Action::QuerySurface);
}

#[test]
fn a_closed_loop_yields() {
    let mut d = driver(2, 3);
    d.close();
    assert_eq!(d.phase(), Phase::Closed);
    assert_eq!(d.step(Event::Begin), Action::Yield);
    assert_eq!(d.step(Event::Done), Action::Yield);
    assert_eq!(d.phase(), Phase::Closed);
}

#[test]
fn result_codes_agree_with_the_bindings() {
    assert_eq!(RESULT_SUBOPTIMAL, vk::SuccessCode::SUBOPTIMAL_KHR.as_raw());
    assert_eq!(RESULT_OUT_OF_DATE, vk::ErrorCode::OUT_OF_DATE_KHR.as_raw());
}

#[test]
fn status_follows_the_result() {
    assert!(matches!(Event::from_status(Ok(())), Event::Done));
    assert!(matches!(Event::from_status(Ok(vk::SuccessCode::TIMEOUT.as_raw())), Event::Done));
    assert!(matches!(
        Event::from_status::<()>(Err(vk::ErrorCode::DEVICE_LOST.as_raw())),
        Event::Failed { code: -4 }
    ));
    assert!(matches!(
        Event::from_status::<i32>(Err(RESULT_OUT_OF_DATE)),
        Event::Failed { code: RESULT_OUT_OF_DATE }
    ));
}

#[test]
fn acquire_results_are_read() {
    assert!(matches!(Event::from_acquire(Ok((2, 0))), Event::Acquired { image: 2 }));
    assert!(matches!(
        Event::from_acquire(Ok((1, RESULT_SUBOPTIMAL))),
        Event::Acquired { image: 1 }
    ));
    assert!(matches!(Event::from_acquire(Err(RESULT_OUT_OF_DATE)), Event::OutOfDate));
    assert!(matches!(Event::from_acquire(Err(-4)), Event::Failed { code: -4 }));
}

#[test]
fn present_results_are_read() {
    assert!(matches!(Event::from_present(Ok(0)), Event::Presented { suboptimal: false }));
    assert!(matches!(
        Event::from_present(Ok(RESULT_SUBOPTIMAL)),
        Event::Presented { suboptimal: true }
    ));
    assert!(matches!(Event::from_present(Err(RESULT_OUT_OF_DATE)), Event::OutOfDate));
    assert!(matches!(
        Event::from_present(Err(vk::ErrorCode::SURFACE_LOST_KHR.as_raw())),
        Event::Failed { code: -1000000000 }
    ));
}

#[test]
fn rebuild_results_are_read() {
    assert!(matches!(Event::from_rebuild(Ok(3)), Event::Rebuilt { image_count: 3 }));
    assert!(matches!(Event::from_rebuild(Err(-2)), Event::Failed { code: -2 }));
}

#[test]
fn a_frame_driven_by_results_of_the_bindings() {
    let mut d = driver(2, 3);
    let waited: Result<vk::SuccessCode, vk::ErrorCode> = Ok(vk::SuccessCode::SUCCESS);
    let acquired: Result<(u32, vk::SuccessCode), vk::ErrorCode> =
        Err(vk::ErrorCode::OUT_OF_DATE_KHR);
    assert_eq!(d.step(Event::Begin), Action::WaitFence { slot: 0 });
    let event = Event::from_status(waited.map(|c| c.as_raw()).map_err(|e| e.as_raw()));
    assert_eq!(d.step(event), Action::AcquireImage { slot: 0 });
    let event =
        Event::from_acquire(acquired.map(|(i, c)| (i, c.as_raw())).map_err(|e| e.as_raw()));
    assert_eq!(d.step(event), Action::QuerySurface);
    assert_eq!(d.frame(), 0);
}

#[test]
fn generations_need_images_and_an_area() {
    assert!(Generation::new(config(1024, 768), 0).is_none());
    assert!(Generation::new(config(0, 768), 3).is_none());
    assert!(Generation::new(config(1024, 0), 3).is_none());
    let g = Generation::new(config(1024, 768), 3).unwrap();
    assert_eq!(g.serial, 0);
    assert!(g.replaced(config(1, 1), 0).is_none());
    assert!(g.replaced(config(0, 1), 2).is_none());
    let next = g.replaced(config(640, 480), 2).unwrap();
    assert_eq!(next.serial, 1);
    assert_eq!(next.image_count, 2);
    assert_eq!(next.config, config(640, 480));
    let last = Generation { serial: u64::MAX, config: config(1, 1), image_count: 1 };
    assert_eq!(last.replaced(config(1, 1), 1).unwrap().serial, 0);
}
