use surface_loop::action::{Action, ClearColor, Notice};
use surface_loop::config::{initial_config, SurfaceConfig};
use surface_loop::dispatch::{step, Event, LoopState, WindowEvent};
use surface_loop::frame::SurfaceError;
use wgpu::{CompositeAlphaMode, TextureFormat};

fn config(width: u32, height: u32) -> SurfaceConfig {
    initial_config(
        &vec![TextureFormat::Bgra8Unorm, TextureFormat::Bgra8UnormSrgb],
        &vec![CompositeAlphaMode::Opaque],
        width,
        height,
    )
    .unwrap()
}

fn own(event: WindowEvent) -> Event {
    Event::Window { own: true, event }
}

fn acquired(outcome: Result<(), SurfaceError>, width: u32, height: u32) -> Event {
    Event::Acquired { outcome, elapsed_nanos: 1_000, window_width: width, window_height: height }
}

fn frame() -> Vec<Action> {
    vec![
        Action::ClearPass { color: ClearColor { red: 166, green: 227, blue: 161, alpha: 255 } },
        Action::Submit,
        Action::Notify { notice: Notice::Presenting },
        Action::Present,
    ]
}

#[test]
fn window_lifecycle_scenario() {
    let mut stored = config(800, 600);
    assert_eq!((stored.width, stored.height), (800, 600));
    let mut state = LoopState::Running;

    let (next, actions) =
        step(state, &mut stored, own(WindowEvent::Resized { width: 1024, height: 768 }));
    state = next;
    assert_eq!(state, LoopState::Running);
    assert_eq!((stored.width, stored.height), (1024, 768));
    assert_eq!(
        actions,
        vec![
            Action::Configure { config: stored },
            Action::Notify { notice: Notice::Resized { width: 1024, height: 768 } },
        ]
    );

    let before = stored;
    let (next, actions) =
        step(state, &mut stored, own(WindowEvent::Resized { width: 0, height: 0 }));
    state = next;
    assert_eq!(state, LoopState::Running);
    assert_eq!(stored, before);
    assert!(actions.is_empty());

    let (next, actions) = step(state, &mut stored, Event::AboutToWait);
    state = next;
    assert_eq!(actions, vec![Action::AcquireImage]);
    let (next, actions) = step(state, &mut stored, acquired(Ok(()), 1024, 768));
    state = next;
    assert_eq!(state, LoopState::Running);
    assert_eq!(actions, frame());
    assert_eq!(stored, before);

    let (next, actions) = step(state, &mut stored, Event::AboutToWait);
    state = next;
    assert_eq!(actions, vec![Action::AcquireImage]);
    let (next, actions) = step(state, &mut stored, acquired(Err(SurfaceError::Lost), 1024, 768));
    state = next;
    assert_eq!(state, LoopState::Running);
    assert_eq!(
        actions,
        vec![
            Action::Configure { config: before },
            Action::Notify { notice: Notice::Resized { width: 1024, height: 768 } },
        ]
    );
    assert!(!actions.contains(&Action::Submit));
    assert!(!actions.contains(&Action::Present));

    let (next, actions) = step(state, &mut stored, own(WindowEvent::CloseRequested));
    assert_eq!(next, LoopState::Exit);
    assert!(actions.is_empty());
}

#[test]
fn idle_tick_asks_for_an_image() {
    let mut stored = config(800, 600);
    let (next, actions) = step(LoopState::Running, &mut stored, Event::AboutToWait);
    assert_eq!(next, LoopState::Running);
    assert_eq!(actions, vec![Action::AcquireImage]);
    assert_eq!(stored, config(800, 600));
}

#[test]
fn lost_surface_is_configured_with_the_window_size() {
    let mut stored = config(800, 600);
    let (next, actions) =
        step(LoopState::Running, &mut stored, acquired(Err(SurfaceError::Lost), 640, 480));
    assert_eq!(next, LoopState::Running);
    assert_eq!((stored.width, stored.height), (640, 480));
    assert_eq!(
        actions,
        vec![
            Action::Configure { config: stored },
            Action::Notify { notice: Notice::Resized { width: 640, height: 480 } },
        ]
    );
}

#[test]
fn outdated_surface_is_configured_with_the_window_size() {
    let mut stored = config(800, 600);
    let (next, actions) =
        step(LoopState::Running, &mut stored, acquired(Err(SurfaceError::Outdated), 320, 200));
    assert_eq!(next, LoopState::Running);
    assert_eq!((stored.width, stored.height), (320, 200));
    assert_eq!(actions[0], Action::Configure { config: stored });
    assert_eq!(actions.len(), 2);
}

#[test]
fn lost_surface_of_a_minimised_window_does_nothing() {
    let mut stored = config(800, 600);
    let (next, actions) =
        step(LoopState::Running, &mut stored, acquired(Err(SurfaceError::Lost), 0, 0));
    assert_eq!(next, LoopState::Running);
    assert_eq!(stored, config(800, 600));
    assert!(actions.is_empty());
}

#[test]
fn out_of_memory_ends_the_loop() {
    let mut stored = config(800, 600);
    let (next, actions) =
        step(LoopState::Running, &mut stored, acquired(Err(SurfaceError::OutOfMemory), 800, 600));
    assert_eq!(next, LoopState::Exit);
    assert!(actions.is_empty());
    assert_eq!(stored, config(800, 600));
}

#[test]
fn timeout_drops_the_frame_and_goes_on() {
    let mut stored = config(800, 600);
    let (next, actions) =
        step(LoopState::Running, &mut stored, acquired(Err(SurfaceError::Timeout), 800, 600));
    assert_eq!(next, LoopState::Running);
    assert_eq!(
        actions,
        vec![Action::Notify { notice: Notice::FrameDropped { error: SurfaceError::Timeout } }]
    );
    assert_eq!(stored, config(800, 600));
}

#[test]
fn unclassified_error_drops_the_frame_and_goes_on() {
    let mut stored = config(800, 600);
    let (next, actions) =
        step(LoopState::Running, &mut stored, acquired(Err(SurfaceError::Other), 10, 10));
    assert_eq!(next, LoopState::Running);
    assert_eq!(
        actions,
        vec![Action::Notify { notice: Notice::FrameDropped { error: SurfaceError::Other } }]
    );
    assert_eq!(stored, config(800, 600));
}

#[test]
fn events_of_other_windows_are_ignored() {
    let mut stored = config(800, 600);
    for event in [
        WindowEvent::CloseRequested,
        WindowEvent::Resized { width: 1024, height: 768 },
        WindowEvent::Other,
    ] {
        let (next, actions) =
            step(LoopState::Running, &mut stored, Event::Window { own: false, event });
        assert_eq!(next, LoopState::Running);
        assert!(actions.is_empty());
        assert_eq!(stored, config(800, 600));
    }
}

#[test]
fn other_events_are_ignored() {
    let mut stored = config(800, 600);
    for event in [Event::Other, own(WindowEvent::Other)] {
        let (next, actions) = step(LoopState::Running, &mut stored, event);
        assert_eq!(next, LoopState::Running);
        assert!(actions.is_empty());
        assert_eq!(stored, config(800, 600));
    }
}

#[test]
fn nothing_happens_after_exit() {
    let mut stored = config(800, 600);
    for event in [
        Event::AboutToWait,
        acquired(Ok(()), 800, 600),
        acquired(Err(SurfaceError::Lost), 640, 480),
        own(WindowEvent::Resized { width: 1024, height: 768 }),
        own(WindowEvent::CloseRequested),
        Event::Other,
    ] {
        let (next, actions) = step(LoopState::Exit, &mut stored, event);
        assert_eq!(next, LoopState::Exit);
        assert!(actions.is_empty());
        assert_eq!(stored, config(800, 600));
    }
}

#[test]
fn no_tick_is_issued_after_out_of_memory() {
    let mut stored = config(800, 600);
    let mut state = LoopState::Running;
    let mut done: Vec<Action> = Vec::new();
    for event in [
        Event::AboutToWait,
        acquired(Err(SurfaceError::OutOfMemory), 800, 600),
        Event::AboutToWait,
        acquired(Ok(()), 800, 600),
    ] {
        let (next, actions) = step(state, &mut stored, event);
        state = next;
        done.extend(actions);
    }
    assert_eq!(state, LoopState::Exit);
    assert_eq!(done, vec![Action::AcquireImage]);
}

#[test]
fn every_applied_configuration_has_positive_sides() {
    let sizes = [(0, 0), (0, 5), (5, 0), (1, 1), (1920, 1080)];
    for (width, height) in sizes {
        let mut stored = config(800, 600);
        let events = [
            own(WindowEvent::Resized { width, height }),
            acquired(Err(SurfaceError::Lost), width, height),
            acquired(Err(SurfaceError::Outdated), width, height),
        ];
        for event in events {
            let (_, actions) = step(LoopState::Running, &mut stored, event);
            for action in actions {
                if let Action::Configure { config } = action {
                    assert!(config.width > 0 && config.height > 0);
                    assert_eq!(config, stored);
                }
            }
        }
    }
}

#[test]
fn slow_acquisition_is_reported_and_the_frame_goes_on() {
    let mut stored = config(800, 600);
    let event = Event::Acquired {
        outcome: Ok(()),
        elapsed_nanos: 750_000_000,
        window_width: 800,
        window_height: 600,
    };
    let (next, actions) = step(LoopState::Running, &mut stored, event);
    assert_eq!(next, LoopState::Running);
    let mut expected = vec![Action::Notify { notice: Notice::SlowAcquire { millis: 750 } }];
    expected.extend(frame());
    assert_eq!(actions, expected);
}

#[test]
fn close_request_for_own_window_ends_the_loop() {
    let mut stored = config(800, 600);
    let (next, actions) = step(LoopState::Running, &mut stored, own(WindowEvent::CloseRequested));
    assert_eq!(next, LoopState::Exit);
    assert!(actions.is_empty());
    assert_eq!(stored, config(800, 600));
}
