//! What the library asks its caller to do.

use vstd::prelude::*;
use crate::config::SurfaceConfig;
use crate::frame::SurfaceError;

verus! {

/// An RGBA colour, each channel in 255ths.
#[derive(Clone, Copy, Debug, PartialEq, Eq)]
pub struct ClearColor {
    pub red: u8,
    pub green: u8,
    pub blue: u8,
    pub alpha: u8,
}

/// Something worth a line in the log. It never changes what is done.
#[derive(Clone, Copy, Debug, PartialEq, Eq)]
pub enum Notice {
    /// A new size was taken into the configuration.
    Resized { width: u32, height: u32 },
    /// Acquiring the image took longer than the soft limit.
    SlowAcquire { millis: u128 },
    /// The image is about to be presented.
    Presenting,
    /// The frame was given up because of `error`.
    FrameDropped { error: SurfaceError },
}

/// One thing for the caller to do, in the order given.
#[derive(Clone, Copy, Debug, PartialEq, Eq)]
pub enum Action {
    /// Acquire the next presentable image and hand the outcome back.
    AcquireImage,
    /// Apply `config` to the surface.
    Configure { config: SurfaceConfig },
    /// Record one render pass on the acquired image that clears it to `color`
    /// and stores the result, with nothing else attached.
    ClearPass { color: ClearColor },
    /// Finish recording and submit the one command buffer.
    Submit,
    /// Present the acquired image.
    Present,
    /// Write `notice` to the log.
    Notify { notice: Notice },
}

/// `wanted` stands at exactly one place in `actions`.
pub open spec fn occurs_once(actions: Seq<Action>, wanted: Action) -> bool {
    exists|i: int|
        0 <= i < actions.len() && #[trigger] actions[i] == wanted && forall|j: int|
            0 <= j < actions.len() && #[trigger] actions[j] == wanted ==> j == i
}

/// `wanted` stands nowhere in `actions`.
pub open spec fn never_occurs(actions: Seq<Action>, wanted: Action) -> bool {
    forall|i: int| 0 <= i < actions.len() ==> #[trigger] actions[i] != wanted
}

/// Exactly one of `actions` applies a configuration to the surface, and the
/// one applied is `config`.
pub open spec fn configures_once(actions: Seq<Action>, config: SurfaceConfig) -> bool {
    exists|i: int|
        0 <= i < actions.len() && #[trigger] actions[i] == (Action::Configure { config })
            && forall|j: int|
            0 <= j < actions.len() && (#[trigger] actions[j]) is Configure ==> j == i
}

/// None of `actions` applies a configuration to the surface.
pub open spec fn never_configures(actions: Seq<Action>) -> bool {
    forall|i: int| 0 <= i < actions.len() ==> !((#[trigger] actions[i]) is Configure)
}

} // verus!
