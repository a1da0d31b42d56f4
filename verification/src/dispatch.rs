//! The event loop's decisions: from state and event to next state and actions.
//!
//! The caller owns the window and the GPU. It hands each event in, performs the
//! actions that come back in order, and leaves the loop once the state is
//! `Exit`. Acquiring an image is such an action; its outcome comes back as the
//! event `Acquired`.

use vstd::prelude::*;
use crate::action::{never_configures, never_occurs, configures_once, occurs_once, Action, Notice};
use crate::config::{
    lemma_resize_configures_once, resize_actions, resize_surface, resized, SurfaceConfig,
};
use crate::frame::{
    frame_actions, lemma_frame_never_configures, lemma_frame_submits_and_presents_once, render,
    SurfaceError,
};

verus! {

/// Whether the loop goes on.
#[derive(Clone, Copy, Debug, PartialEq, Eq)]
pub enum LoopState {
    Running,
    /// Terminal: nothing is done any more.
    Exit,
}

/// What happened to a window.
#[derive(Clone, Copy, Debug, PartialEq, Eq)]
pub enum WindowEvent {
    CloseRequested,
    Resized { width: u32, height: u32 },
    Other,
}

/// What the loop is told.
#[derive(Clone, Copy, Debug, PartialEq, Eq)]
pub enum Event {
    /// Something happened to a window; `own` says whether it is this loop's.
    Window { own: bool, event: WindowEvent },
    /// No event is pending: time for a frame.
    AboutToWait,
    /// The outcome of `Action::AcquireImage`, with the time it took and the
    /// window's size at that moment.
    Acquired {
        outcome: Result<(), SurfaceError>,
        elapsed_nanos: u128,
        window_width: u32,
        window_height: u32,
    },
    /// Anything else.
    Other,
}

/// The state after `event`. The loop ends on a request to close its own window
/// and when acquiring an image ran out of memory, and never starts again.
pub open spec fn next_state(state: LoopState, event: Event) -> LoopState {
    match (state, event) {
        (LoopState::Exit, _) => LoopState::Exit,
        (_, Event::Window { own: true, event: WindowEvent::CloseRequested }) => LoopState::Exit,
        (_, Event::Acquired { outcome: Err(SurfaceError::OutOfMemory), .. }) => LoopState::Exit,
        _ => LoopState::Running,
    }
}

/// The configuration after `event`. Only a resize of the loop's own window and
/// a lost or outdated surface touch it, the latter with the window's size.
pub open spec fn next_config(state: LoopState, config: SurfaceConfig, event: Event)
    -> SurfaceConfig {
    match (state, event) {
        (
            LoopState::Running,
            Event::Window { own: true, event: WindowEvent::Resized { width, height } },
        ) => resized(config, width, height),
        (
            LoopState::Running,
            Event::Acquired {
                outcome: Err(SurfaceError::Lost),
                window_width,
                window_height,
                ..
            },
        ) => resized(config, window_width, window_height),
        (
            LoopState::Running,
            Event::Acquired {
                outcome: Err(SurfaceError::Outdated),
                window_width,
                window_height,
                ..
            },
        ) => resized(config, window_width, window_height),
        _ => config,
    }
}

/// What is to be done on a failed acquisition while running.
pub open spec fn recovery_actions(
    config: SurfaceConfig,
    error: SurfaceError,
    window_width: u32,
    window_height: u32,
) -> Seq<Action> {
    match error {
        SurfaceError::Lost => resize_actions(config, window_width, window_height),
        SurfaceError::Outdated => resize_actions(config, window_width, window_height),
        SurfaceError::OutOfMemory => Seq::empty(),
        _ => seq![Action::Notify { notice: Notice::FrameDropped { error } }],
    }
}

/// What is to be done on `event`, in order.
pub open spec fn actions_for(state: LoopState, config: SurfaceConfig, event: Event) -> Seq<
    Action,
> {
    match (state, event) {
        (
            LoopState::Running,
            Event::Window { own: true, event: WindowEvent::Resized { width, height } },
        ) => resize_actions(config, width, height),
        (LoopState::Running, Event::AboutToWait) => seq![Action::AcquireImage],
        (LoopState::Running, Event::Acquired { outcome: Ok(_), elapsed_nanos, .. }) => frame_actions(
            elapsed_nanos,
        ),
        (
            LoopState::Running,
            Event::Acquired { outcome: Err(error), window_width, window_height, .. },
        ) => recovery_actions(config, error, window_width, window_height),
        _ => Seq::empty(),
    }
}

/// Takes one event. Gives the next state and what the caller is to do now,
/// and updates the configuration where the event calls for it.
///
/// - A request to close the loop's own window ends the loop.
/// - A resize of the loop's own window goes to `resize_surface`.
/// - An idle tick asks for an image.
/// - An acquired image is cleared, submitted and presented (`render`).
/// - A lost or outdated surface is configured anew with the window's size, and
///   the frame is skipped.
/// - Out of memory ends the loop.
/// - Any other failure is reported and the frame is skipped.
/// - Everything else, and everything after the loop has ended, does nothing.
pub fn step(state: LoopState, config: &mut SurfaceConfig, event: Event) -> (next: (
    LoopState,
    Vec<Action>,
))
    ensures
        next.0 == next_state(state, event),
        *final(config) == next_config(state, *old(config), event),
        next.1@ == actions_for(state, *old(config), event),
{
    match state {
        LoopState::Exit => (LoopState::Exit, Vec::new()),
        LoopState::Running => match event {
            Event::Window { own, event } => {
                if !own {
                    (LoopState::Running, Vec::new())
                } else {
                    match event {
                        WindowEvent::CloseRequested => (LoopState::Exit, Vec::new()),
                        WindowEvent::Resized { width, height } => {
                            let actions = resize_surface(config, width, height);
                            (LoopState::Running, actions)
                        },
                        WindowEvent::Other => (LoopState::Running, Vec::new()),
                    }
                }
            },
            Event::AboutToWait => {
                let mut actions: Vec<Action> = Vec::new();
                actions.push(Action::AcquireImage);
                (LoopState::Running, actions)
            },
            Event::Acquired { outcome, elapsed_nanos, window_width, window_height } => {
                match render(outcome, elapsed_nanos) {
                    Ok(actions) => (LoopState::Running, actions),
                    Err(SurfaceError::Lost) => {
                        let actions = resize_surface(config, window_width, window_height);
                        (LoopState::Running, actions)
                    },
                    Err(SurfaceError::Outdated) => {
                        let actions = resize_surface(config, window_width, window_height);
                        (LoopState::Running, actions)
                    },
                    Err(SurfaceError::OutOfMemory) => (LoopState::Exit, Vec::new()),
                    Err(error) => {
                        let mut actions: Vec<Action> = Vec::new();
                        actions.push(Action::Notify { notice: Notice::FrameDropped { error } });
                        (LoopState::Running, actions)
                    },
                }
            },
            Event::Other => (LoopState::Running, Vec::new()),
        },
    }
}

/// The state, the configuration and all actions, in order, after a run of
/// events, one `step` each.
pub open spec fn run(state: LoopState, config: SurfaceConfig, events: Seq<Event>) -> (
    LoopState,
    SurfaceConfig,
    Seq<Action>,
)
    decreases events.len(),
{
    if events.len() == 0 {
        (state, config, Seq::empty())
    } else {
        let before = run(state, config, events.drop_last());
        (
            next_state(before.0, events.last()),
            next_config(before.0, before.1, events.last()),
            before.2 + actions_for(before.0, before.1, events.last()),
        )
    }
}

/// A resize of the loop's own window to a size with both sides positive is
/// stored and applied to the surface exactly once; one to a size with a zero
/// side changes nothing and applies nothing. Either way the loop goes on.
pub proof fn lemma_resize_event(config: SurfaceConfig, width: u32, height: u32)
    ensures
        ({
            let event = Event::Window { own: true, event: WindowEvent::Resized { width, height } };
            let after = next_config(LoopState::Running, config, event);
            let actions = actions_for(LoopState::Running, config, event);
            &&& next_state(LoopState::Running, event) == LoopState::Running
            &&& width > 0 && height > 0 ==> after.width == width && after.height == height
                && after.same_but_size(config) && configures_once(actions, after)
            &&& width == 0 || height == 0 ==> after == config && never_configures(actions)
        }),
{
    lemma_resize_configures_once(config, width, height);
}

/// With an image acquired, the frame is submitted exactly once and presented
/// exactly once, no further image is asked for, the configuration stays, and
/// the loop goes on.
pub proof fn lemma_acquired_frame(
    config: SurfaceConfig,
    elapsed_nanos: u128,
    window_width: u32,
    window_height: u32,
)
    ensures
        ({
            let event = Event::Acquired {
                outcome: Ok(()),
                elapsed_nanos,
                window_width,
                window_height,
            };
            let actions = actions_for(LoopState::Running, config, event);
            &&& next_state(LoopState::Running, event) == LoopState::Running
            &&& next_config(LoopState::Running, config, event) == config
            &&& occurs_once(actions, Action::Submit)
            &&& occurs_once(actions, Action::Present)
            &&& never_occurs(actions, Action::AcquireImage)
            &&& never_configures(actions)
        }),
{
    lemma_frame_submits_and_presents_once(elapsed_nanos);
    lemma_frame_never_configures(elapsed_nanos);
}

/// A lost or outdated surface is handled as a resize to the window's size, and
/// nothing is submitted or presented on that tick.
pub proof fn lemma_lost_surface_recovers(
    config: SurfaceConfig,
    error: SurfaceError,
    elapsed_nanos: u128,
    window_width: u32,
    window_height: u32,
)
    requires
        error is Lost || error is Outdated,
    ensures
        ({
            let event = Event::Acquired {
                outcome: Err(error),
                elapsed_nanos,
                window_width,
                window_height,
            };
            let after = next_config(LoopState::Running, config, event);
            let actions = actions_for(LoopState::Running, config, event);
            &&& next_state(LoopState::Running, event) == LoopState::Running
            &&& after == resized(config, window_width, window_height)
            &&& actions == resize_actions(config, window_width, window_height)
            &&& window_width > 0 && window_height > 0 ==> after.width == window_width
                && after.height == window_height && configures_once(actions, after)
            &&& never_occurs(actions, Action::Submit)
            &&& never_occurs(actions, Action::Present)
        }),
{
    lemma_resize_configures_once(config, window_width, window_height);
    let actions = resize_actions(config, window_width, window_height);
    if window_width > 0 && window_height > 0 {
        assert(actions.len() == 2);
        assert(actions[0] is Configure);
        assert(actions[1] is Notify);
    }
}

/// Running out of memory while acquiring an image ends the loop, with nothing
/// left to do and the configuration as it was.
pub proof fn lemma_out_of_memory_exits(
    config: SurfaceConfig,
    elapsed_nanos: u128,
    window_width: u32,
    window_height: u32,
)
    ensures
        ({
            let event = Event::Acquired {
                outcome: Err(SurfaceError::OutOfMemory),
                elapsed_nanos,
                window_width,
                window_height,
            };
            &&& next_state(LoopState::Running, event) == LoopState::Exit
            &&& next_config(LoopState::Running, config, event) == config
            &&& actions_for(LoopState::Running, config, event).len() == 0
        }),
{
}

/// A loop that has ended stays ended: whatever events follow, no action is
/// asked for, so no image is acquired again, and the configuration stays.
pub proof fn lemma_exit_is_final(config: SurfaceConfig, events: Seq<Event>)
    ensures
        run(LoopState::Exit, config, events) == (LoopState::Exit, config, Seq::<Action>::empty()),
    decreases events.len(),
{
    if events.len() > 0 {
        lemma_exit_is_final(config, events.drop_last());
        let before = run(LoopState::Exit, config, events.drop_last());
        assert(before.2 + actions_for(before.0, before.1, events.last()) =~= Seq::<
            Action,
        >::empty());
    }
}

/// Running the events `first` and then `rest` is running `rest` from where
/// `first` ended, the actions of both in a row.
pub proof fn lemma_run_in_two(
    state: LoopState,
    config: SurfaceConfig,
    first: Seq<Event>,
    rest: Seq<Event>,
)
    ensures
        ({
            let middle = run(state, config, first);
            let end = run(middle.0, middle.1, rest);
            run(state, config, first + rest) == (end.0, end.1, middle.2 + end.2)
        }),
    decreases rest.len(),
{
    let middle = run(state, config, first);
    if rest.len() == 0 {
        assert(first + rest =~= first);
        assert(middle.2 + Seq::<Action>::empty() =~= middle.2);
    } else {
        lemma_run_in_two(state, config, first, rest.drop_last());
        assert((first + rest).drop_last() =~= first + rest.drop_last());
        assert((first + rest).last() == rest.last());
        let shorter = run(middle.0, middle.1, rest.drop_last());
        let more = actions_for(shorter.0, shorter.1, rest.last());
        assert((middle.2 + shorter.2) + more =~= middle.2 + (shorter.2 + more));
    }
}

/// Once an acquisition has run out of memory, nothing that follows is acted
/// on: the actions of the whole run are those up to that event.
pub proof fn lemma_nothing_after_out_of_memory(
    config: SurfaceConfig,
    before: Seq<Event>,
    elapsed_nanos: u128,
    window_width: u32,
    window_height: u32,
    after: Seq<Event>,
)
    ensures
        ({
            let fatal = Event::Acquired {
                outcome: Err(SurfaceError::OutOfMemory),
                elapsed_nanos,
                window_width,
                window_height,
            };
            let until = run(LoopState::Running, config, before.push(fatal));
            &&& until.0 == LoopState::Exit
            &&& run(LoopState::Running, config, before.push(fatal) + after) == until
        }),
{
    let fatal = Event::Acquired {
        outcome: Err(SurfaceError::OutOfMemory),
        elapsed_nanos,
        window_width,
        window_height,
    };
    let events = before.push(fatal);
    assert(events.drop_last() =~= before);
    assert(events.last() == fatal);
    let until = run(LoopState::Running, config, events);
    assert(until.0 == LoopState::Exit);
    lemma_run_in_two(LoopState::Running, config, events, after);
    lemma_exit_is_final(until.1, after);
    assert(until.2 + Seq::<Action>::empty() =~= until.2);
}

/// Whatever the state and the event, a configuration that is applied to the
/// surface has both sides positive, and it is the one stored from then on.
pub proof fn lemma_applied_config_is_applicable(
    state: LoopState,
    config: SurfaceConfig,
    event: Event,
)
    ensures
        forall|i: int|
            0 <= i < actions_for(state, config, event).len() && (#[trigger] actions_for(
                state,
                config,
                event,
            )[i]) is Configure ==> actions_for(state, config, event)[i]->config.applicable()
                && actions_for(state, config, event)[i]->config == next_config(
                state,
                config,
                event,
            ),
        config.applicable() ==> next_config(state, config, event).applicable(),
{
    let actions = actions_for(state, config, event);
    assert forall|i: int| 0 <= i < actions.len() && (#[trigger] actions[i]) is Configure implies
        actions[i]->config.applicable() && actions[i]->config == next_config(
        state,
        config,
        event,
    ) by {
        match (state, event) {
            (
                LoopState::Running,
                Event::Window { own: true, event: WindowEvent::Resized { width, height } },
            ) => {
                lemma_resize_configures_once(config, width, height);
            },
            (
                LoopState::Running,
                Event::Acquired { outcome: Ok(_), elapsed_nanos, .. },
            ) => {
                lemma_frame_never_configures(elapsed_nanos);
            },
            (
                LoopState::Running,
                Event::Acquired { outcome: Err(error), window_width, window_height, .. },
            ) => {
                lemma_resize_configures_once(config, window_width, window_height);
            },
            _ => {},
        }
    }
}

} // verus!
