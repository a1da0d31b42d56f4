//! Planning one frame: what follows from the outcome of acquiring the image.

use vstd::prelude::*;
use crate::action::{never_configures, never_occurs, occurs_once, Action, ClearColor, Notice};

verus! {

/// Why the surface handed out no image.
#[derive(Clone, Copy, Debug, PartialEq, Eq)]
pub enum SurfaceError {
    /// The image did not arrive in time.
    Timeout,
    /// The surface no longer matches the window and must be configured anew.
    Outdated,
    /// The surface was lost and must be configured anew.
    Lost,
    /// No memory is left.
    OutOfMemory,
    /// Anything else.
    Other,
}

/// Acquiring an image for longer than this many nanoseconds is reported.
pub const SLOW_ACQUIRE_NANOS: u128 = 500_000_000;

pub const NANOS_PER_MILLI: u128 = 1_000_000;

pub const CLEAR_RED: u8 = 166;

pub const CLEAR_GREEN: u8 = 227;

pub const CLEAR_BLUE: u8 = 161;

pub const CLEAR_ALPHA: u8 = 255;

/// The colour every frame is cleared to.
pub open spec fn clear_color() -> ClearColor {
    ClearColor { red: CLEAR_RED, green: CLEAR_GREEN, blue: CLEAR_BLUE, alpha: CLEAR_ALPHA }
}

/// The report of a slow acquisition, in whole milliseconds; there is one
/// exactly when the soft limit was exceeded.
pub open spec fn slow_notice(elapsed_nanos: u128) -> Seq<Action> {
    if elapsed_nanos > SLOW_ACQUIRE_NANOS {
        seq![
            Action::Notify {
                notice: Notice::SlowAcquire { millis: (elapsed_nanos / NANOS_PER_MILLI) as u128 },
            },
        ]
    } else {
        Seq::empty()
    }
}

/// One frame on an acquired image: clear it, submit, present.
pub open spec fn clear_and_present() -> Seq<Action> {
    seq![
        Action::ClearPass { color: clear_color() },
        Action::Submit,
        Action::Notify { notice: Notice::Presenting },
        Action::Present,
    ]
}

/// All that is done for a frame whose image took `elapsed_nanos` to acquire.
pub open spec fn frame_actions(elapsed_nanos: u128) -> Seq<Action> {
    slow_notice(elapsed_nanos) + clear_and_present()
}

/// Plans the frame for one idle tick from the outcome of acquiring the image,
/// which took `elapsed_nanos`. With an image in hand: one clearing render pass,
/// one submission, one presentation, in that order; how long the acquisition
/// took changes only what is reported. Without one the error goes back to the
/// caller as it came and nothing is to be done on the GPU.
pub fn render(acquired: Result<(), SurfaceError>, elapsed_nanos: u128) -> (planned: Result<
    Vec<Action>,
    SurfaceError,
>)
    ensures
        acquired is Ok ==> planned is Ok && planned->Ok_0@ == frame_actions(elapsed_nanos),
        acquired is Ok ==> occurs_once(planned->Ok_0@, Action::Submit) && occurs_once(
            planned->Ok_0@,
            Action::Present,
        ),
        acquired is Err ==> planned is Err && planned->Err_0 == acquired->Err_0,
{
    match acquired {
        Err(error) => Err(error),
        Ok(_) => {
            let mut actions: Vec<Action> = Vec::new();
            if elapsed_nanos > SLOW_ACQUIRE_NANOS {
                let millis: u128 = elapsed_nanos / NANOS_PER_MILLI;
                actions.push(Action::Notify { notice: Notice::SlowAcquire { millis } });
            }
            let color = ClearColor {
                red: CLEAR_RED,
                green: CLEAR_GREEN,
                blue: CLEAR_BLUE,
                alpha: CLEAR_ALPHA,
            };
            actions.push(Action::ClearPass { color });
            actions.push(Action::Submit);
            actions.push(Action::Notify { notice: Notice::Presenting });
            actions.push(Action::Present);
            proof {
                assert(actions@ =~= frame_actions(elapsed_nanos));
                lemma_frame_submits_and_presents_once(elapsed_nanos);
            }
            Ok(actions)
        },
    }
}

/// A frame holds exactly one clearing pass, one submission and one
/// presentation, in that order, however long the image took to arrive.
pub proof fn lemma_frame_submits_and_presents_once(elapsed_nanos: u128)
    ensures
        occurs_once(frame_actions(elapsed_nanos), Action::ClearPass { color: clear_color() }),
        occurs_once(frame_actions(elapsed_nanos), Action::Submit),
        occurs_once(frame_actions(elapsed_nanos), Action::Present),
        never_occurs(frame_actions(elapsed_nanos), Action::AcquireImage),
        forall|i: int, j: int|
            0 <= i < frame_actions(elapsed_nanos).len() && 0 <= j < frame_actions(
                elapsed_nanos,
            ).len() && frame_actions(elapsed_nanos)[i] == Action::Submit && frame_actions(
                elapsed_nanos,
            )[j] == Action::Present ==> i < j,
{
    lemma_frame_layout(elapsed_nanos);
    lemma_laid_out_frame(
        frame_actions(elapsed_nanos),
        slow_notice(elapsed_nanos).len() as int,
        clear_color(),
    );
}

/// A frame never touches the surface's configuration.
pub proof fn lemma_frame_never_configures(elapsed_nanos: u128)
    ensures
        never_configures(frame_actions(elapsed_nanos)),
{
    lemma_frame_layout(elapsed_nanos);
    let actions = frame_actions(elapsed_nanos);
    let shift = slow_notice(elapsed_nanos).len() as int;
    assert forall|i: int| 0 <= i < actions.len() implies !((#[trigger] actions[i]) is Configure) by {
        if i >= shift {
            assert(i == shift || i == shift + 1 || i == shift + 2 || i == shift + 3);
        }
    }
}

/// A list that holds, after `shift` reports, a pass, a submission, a report
/// and a presentation holds each of the three steps once, and in that order.
proof fn lemma_laid_out_frame(actions: Seq<Action>, shift: int, color: ClearColor)
    requires
        0 <= shift,
        actions.len() == shift + 4,
        forall|i: int| 0 <= i < shift ==> (#[trigger] actions[i]) is Notify,
        actions[shift] == (Action::ClearPass { color }),
        actions[shift + 1] == Action::Submit,
        actions[shift + 2] is Notify,
        actions[shift + 3] == Action::Present,
    ensures
        occurs_once(actions, Action::ClearPass { color }),
        occurs_once(actions, Action::Submit),
        occurs_once(actions, Action::Present),
        never_occurs(actions, Action::AcquireImage),
        forall|i: int, j: int|
            0 <= i < actions.len() && 0 <= j < actions.len() && actions[i] == Action::Submit
                && actions[j] == Action::Present ==> i < j,
{
    assert forall|i: int| 0 <= i < actions.len() implies (#[trigger] actions[i]) is Notify || i
        == shift || i == shift + 1 || i == shift + 3 by {
        if i >= shift {
            assert(i == shift || i == shift + 1 || i == shift + 2 || i == shift + 3);
        }
    }
    assert(occurs_once(actions, Action::ClearPass { color })) by {
        assert(actions[shift] == Action::ClearPass { color });
    }
    assert(occurs_once(actions, Action::Submit)) by {
        assert(actions[shift + 1] == Action::Submit);
    }
    assert(occurs_once(actions, Action::Present)) by {
        assert(actions[shift + 3] == Action::Present);
    }
}

/// Where each action of a frame stands: after the report of a slow
/// acquisition, if there is one, come the pass, the submission, the trace and
/// the presentation.
proof fn lemma_frame_layout(elapsed_nanos: u128)
    ensures
        slow_notice(elapsed_nanos).len() <= 1,
        frame_actions(elapsed_nanos).len() == slow_notice(elapsed_nanos).len() + 4,
        forall|i: int|
            0 <= i < slow_notice(elapsed_nanos).len() ==> (#[trigger] frame_actions(
                elapsed_nanos,
            )[i]) is Notify,
        ({
            let actions = frame_actions(elapsed_nanos);
            let shift = slow_notice(elapsed_nanos).len() as int;
            &&& actions[shift] == Action::ClearPass { color: clear_color() }
            &&& actions[shift + 1] == Action::Submit
            &&& actions[shift + 2] == Action::Notify { notice: Notice::Presenting }
            &&& actions[shift + 3] == Action::Present
        }),
{
    let tail = clear_and_present();
    assert(tail.len() == 4);
    assert(tail[0] == Action::ClearPass { color: clear_color() });
    assert(tail[1] == Action::Submit);
    assert(tail[2] == Action::Notify { notice: Notice::Presenting });
    assert(tail[3] == Action::Present);
}

} // verus!
