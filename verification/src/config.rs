//! The surface configuration: how it is first made and how a resize changes it.

use vstd::prelude::*;
use crate::action::{configures_once, never_configures, Action, Notice};
use crate::format::{is_preferred, preferred_index, select_format};

verus! {

/// `wgpu::CompositeAlphaMode`, how a surface's alpha channel is composited,
/// taken as an opaque value: nothing is claimed of what is inside.
#[verifier::external_type_specification]
#[verifier::external_body]
pub struct ExCompositeAlphaMode(wgpu::CompositeAlphaMode);

/// Usage bit of a texture that a render pass writes to.
pub const RENDER_ATTACHMENT: u32 = 16;

/// How many frames may be in flight at most.
pub const FRAME_LATENCY: u32 = 2;

/// When a presented image becomes visible.
#[derive(Clone, Copy, Debug, PartialEq, Eq)]
pub enum PresentMode {
    AutoVsync,
    AutoNoVsync,
    Fifo,
    FifoRelaxed,
    Immediate,
    Mailbox,
}

/// How the presentation surface is set up. The pixel format and the alpha mode
/// are carried as `wgpu` gave them; the rest are plain values.
#[derive(Clone, Copy, Debug, PartialEq, Eq)]
pub struct SurfaceConfig {
    /// Bit set of texture usages.
    pub usage: u32,
    pub format: wgpu::TextureFormat,
    pub width: u32,
    pub height: u32,
    pub present_mode: PresentMode,
    pub desired_maximum_frame_latency: u32,
    pub alpha_mode: wgpu::CompositeAlphaMode,
}

impl SurfaceConfig {
    /// A configuration may be applied to a surface only with both sides positive.
    pub open spec fn applicable(self) -> bool {
        self.width > 0 && self.height > 0
    }

    /// The two differ in their size at most.
    pub open spec fn same_but_size(self, other: SurfaceConfig) -> bool {
        &&& self.usage == other.usage
        &&& self.format == other.format
        &&& self.present_mode == other.present_mode
        &&& self.desired_maximum_frame_latency == other.desired_maximum_frame_latency
        &&& self.alpha_mode == other.alpha_mode
    }
}

/// Why no configuration could be made.
#[derive(Clone, Copy, Debug, PartialEq, Eq)]
pub enum ConfigError {
    /// The surface supports no pixel format.
    NoFormat,
    /// The surface supports no alpha mode.
    NoAlphaMode,
}

/// The configuration a surface starts with: render-attachment usage, vsync,
/// two frames in flight at most, and the given format, alpha mode and size.
pub open spec fn initial(
    format: wgpu::TextureFormat,
    alpha_mode: wgpu::CompositeAlphaMode,
    width: u32,
    height: u32,
) -> SurfaceConfig {
    SurfaceConfig {
        usage: RENDER_ATTACHMENT,
        format,
        width,
        height,
        present_mode: PresentMode::AutoVsync,
        desired_maximum_frame_latency: FRAME_LATENCY,
        alpha_mode,
    }
}

/// Builds the first configuration from what the surface supports and the
/// window's size: the preferred pixel format and the first alpha mode. Fails
/// exactly when one of the two lists is empty, the formats being looked at first.
pub fn initial_config(
    formats: &Vec<wgpu::TextureFormat>,
    alpha_modes: &Vec<wgpu::CompositeAlphaMode>,
    width: u32,
    height: u32,
) -> (made: Result<SurfaceConfig, ConfigError>)
    ensures
        formats@.len() == 0 ==> made == Err::<SurfaceConfig, ConfigError>(ConfigError::NoFormat),
        formats@.len() > 0 && alpha_modes@.len() == 0 ==> made == Err::<
            SurfaceConfig,
            ConfigError,
        >(ConfigError::NoAlphaMode),
        formats@.len() > 0 && alpha_modes@.len() > 0 ==> made == Ok::<SurfaceConfig, ConfigError>(
            initial(formats@[preferred_index(formats@)], alpha_modes@[0], width, height),
        ),
        formats@.len() > 0 ==> is_preferred(formats@, preferred_index(formats@)),
{
    match select_format(formats) {
        None => Err(ConfigError::NoFormat),
        Some(index) => {
            if alpha_modes.len() == 0 {
                Err(ConfigError::NoAlphaMode)
            } else {
                Ok(
                    SurfaceConfig {
                        usage: RENDER_ATTACHMENT,
                        format: formats[index],
                        width,
                        height,
                        present_mode: PresentMode::AutoVsync,
                        desired_maximum_frame_latency: FRAME_LATENCY,
                        alpha_mode: alpha_modes[0],
                    },
                )
            }
        },
    }
}

/// The configuration after a resize to `width` by `height` was asked for: the
/// new size where both sides are positive, the old configuration otherwise.
pub open spec fn resized(config: SurfaceConfig, width: u32, height: u32) -> SurfaceConfig {
    if width > 0 && height > 0 {
        SurfaceConfig { width, height, ..config }
    } else {
        config
    }
}

/// What a resize asks the caller to do: apply the new configuration once and
/// report the new size; nothing at all for a size with a zero side.
pub open spec fn resize_actions(config: SurfaceConfig, width: u32, height: u32) -> Seq<Action> {
    if width > 0 && height > 0 {
        seq![
            Action::Configure { config: resized(config, width, height) },
            Action::Notify { notice: Notice::Resized { width, height } },
        ]
    } else {
        Seq::empty()
    }
}

/// Takes a requested size into the stored configuration. With both sides
/// positive the size is stored and the surface is to be configured anew; a
/// zero side (a minimised window) leaves everything as it was.
pub fn resize_surface(config: &mut SurfaceConfig, width: u32, height: u32) -> (actions: Vec<Action>)
    ensures
        *final(config) == resized(*old(config), width, height),
        actions@ == resize_actions(*old(config), width, height),
        width > 0 && height > 0 ==> final(config).width == width && final(config).height == height
            && configures_once(actions@, *final(config)),
        width == 0 || height == 0 ==> *final(config) == *old(config) && never_configures(
            actions@,
        ),
{
    let mut actions: Vec<Action> = Vec::new();
    if width > 0 && height > 0 {
        config.width = width;
        config.height = height;
        actions.push(Action::Configure { config: *config });
        actions.push(Action::Notify { notice: Notice::Resized { width, height } });
    }
    proof {
        assert(actions@ =~= resize_actions(*old(config), width, height));
        lemma_resize_configures_once(*old(config), width, height);
    }
    actions
}

/// A resize to a size with both sides positive stores that size, keeps every
/// other setting, and applies the result to the surface exactly once. A resize
/// to a size with a zero side changes nothing and applies nothing. Whatever is
/// applied has both sides positive.
pub proof fn lemma_resize_configures_once(config: SurfaceConfig, width: u32, height: u32)
    ensures
        ({
            let after = resized(config, width, height);
            let actions = resize_actions(config, width, height);
            &&& width > 0 && height > 0 ==> {
                &&& after.width == width
                &&& after.height == height
                &&& after.same_but_size(config)
                &&& after.applicable()
                &&& configures_once(actions, after)
            }
            &&& width == 0 || height == 0 ==> {
                &&& after == config
                &&& actions.len() == 0
                &&& never_configures(actions)
            }
        }),
{
    if width > 0 && height > 0 {
        let actions = resize_actions(config, width, height);
        assert(actions.len() == 2);
        assert(actions[0] == Action::Configure { config: resized(config, width, height) });
        assert(actions[1] is Notify);
    }
}

} // verus!
