//! Derivation of the presentation-surface configuration.
//!
//! Before the surface can be used it must be configured with a valid size,
//! a pixel format the surface actually supports, a presentation mode and a
//! bound on the number of queued frames. The shell queries the GPU for the
//! surface's capability set and hands the supported pixel formats to the
//! library as opaque identifiers, in the GPU's own preference order; the
//! library makes the choice and fixes the remaining fields.

use vstd::prelude::*;

verus! {

/// How many frames may be queued for presentation at once: low-latency
/// triple buffering.
pub const MAX_QUEUED_FRAMES: u32 = 2;

/// The presentation modes this controller chooses between. `Mailbox` is
/// the low-latency triple-buffering style mode and is always preferred;
/// `Fifo` is the universally supported queued mode, listed for
/// completeness of the model.
#[derive(Clone, Copy, Debug, PartialEq, Eq, Structural)]
pub enum PresentMode {
    /// Newest-frame-wins presentation: rendered frames replace any frame
    /// still waiting, keeping latency low.
    Mailbox,
    /// First-in-first-out presentation: every rendered frame is shown.
    Fifo,
}

/// A complete, valid configuration for the presentation surface. The
/// pixel format is an opaque identifier from the surface's reported
/// capability set; the library never inspects it.
#[derive(Clone, Copy, Debug, PartialEq, Eq, Structural)]
pub struct SurfaceConfig {
    /// Drawable width in pixels; never zero.
    pub width: u32,
    /// Drawable height in pixels; never zero.
    pub height: u32,
    /// Identifier of the chosen pixel format.
    pub format: u64,
    /// The chosen presentation mode.
    pub present_mode: PresentMode,
    /// Upper bound on frames queued for presentation.
    pub max_queued_frames: u32,
}

impl SurfaceConfig {
    /// Validity of a surface configuration: a surface can only be
    /// configured with nonzero dimensions.
    pub open spec fn wf(self) -> bool {
        self.width > 0 && self.height > 0
    }

    /// Derives the configuration for a surface of size `width` by
    /// `height` from the surface's reported capability set: the first
    /// supported pixel format (the GPU lists its preferred format first),
    /// mailbox presentation, and the fixed queued-frame bound. Returns
    /// `None` exactly when the capability set offers no pixel format at
    /// all, in which case no frame can ever be presented and setup must
    /// fail.
    pub fn from_capabilities(formats: &Vec<u64>, width: u32, height: u32) -> (r: Option<
        SurfaceConfig,
    >)
        requires
            width > 0,
            height > 0,
        ensures
            r is Some <==> formats@.len() > 0,
            r matches Some(cfg) ==> cfg == (SurfaceConfig {
                width,
                height,
                format: formats@[0],
                present_mode: PresentMode::Mailbox,
                max_queued_frames: MAX_QUEUED_FRAMES,
            }),
            r matches Some(cfg) ==> cfg.wf(),
    {
        if formats.len() == 0 {
            None
        } else {
            Some(
                SurfaceConfig {
                    width,
                    height,
                    format: formats[0],
                    present_mode: PresentMode::Mailbox,
                    max_queued_frames: MAX_QUEUED_FRAMES,
                },
            )
        }
    }
}

} // verus!
