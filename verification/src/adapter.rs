//! The rendering adapter: composes the GPU context with the scene
//! renderer, drives the per-frame cycle, and keeps the readiness
//! protocol around page flips.

use vstd::prelude::*;
use crate::builder::{clone_outcome, ContextBuilder};
use crate::context::{map_activation_outcome, map_swap_outcome};
use crate::error::{ConfigIssue, RenderError};
use crate::frame::{spec_frame_log, FrameAction, FrameOutcomes};
use crate::rotation::RenderingRotation;
use crate::PhysicalSize;

verus! {

/// The adapter's observable state: the fixed surface geometry, and
/// whether a buffer swap is pending completion at the hardware level.
pub struct RenderingAdapter {
    pub width: u32,
    pub height: u32,
    pub swap_pending: bool,
}

/// The adapter is ready to present exactly when no buffer swap is
/// pending completion.
pub open spec fn spec_ready(a: RenderingAdapter) -> bool {
    !a.swap_pending
}

/// The adapter after a successful render-and-present: a swap is pending.
pub open spec fn spec_after_successful_present(a: RenderingAdapter) -> RenderingAdapter {
    RenderingAdapter { width: a.width, height: a.height, swap_pending: true }
}

/// The adapter after the page-flip completion callback has fired: no
/// swap is pending any more.
pub open spec fn spec_after_frame_callback(a: RenderingAdapter) -> RenderingAdapter {
    RenderingAdapter { width: a.width, height: a.height, swap_pending: false }
}

/// After a successful render-and-present the adapter reports not ready,
/// and it reports ready again once the recorded completion callback has
/// fired.
pub proof fn lemma_readiness_follows_page_flip(a: RenderingAdapter)
    ensures
        !spec_ready(spec_after_successful_present(a)),
        spec_ready(spec_after_frame_callback(spec_after_successful_present(a))),
{
}

impl RenderingAdapter {
    /// Creates the adapter for a display of the given geometry, validated
    /// exactly as GPU context construction validates it: both dimensions
    /// strictly positive, width checked first. No swap is pending.
    pub fn new(width: u32, height: u32) -> (r: Result<RenderingAdapter, RenderError>)
        ensures
            width > 0 && height > 0 ==> r == Ok::<RenderingAdapter, RenderError>(
                RenderingAdapter { width, height, swap_pending: false },
            ),
            width == 0 ==> r == Err::<RenderingAdapter, RenderError>(
                RenderError::ConfigurationError(ConfigIssue::InvalidWidth(width)),
            ),
            width > 0 && height == 0 ==> r == Err::<RenderingAdapter, RenderError>(
                RenderError::ConfigurationError(ConfigIssue::InvalidHeight(height)),
            ),
    {
        match ContextBuilder::begin(width, height) {
            Ok(_) => Ok(RenderingAdapter { width, height, swap_pending: false }),
            Err(e) => Err(e),
        }
    }

    /// The display geometry, fixed for the adapter's lifetime.
    pub fn size(&self) -> (s: PhysicalSize)
        ensures
            s == (PhysicalSize { width: self.width, height: self.height }),
    {
        PhysicalSize { width: self.width, height: self.height }
    }

    /// True only when no buffer swap is pending completion. Callers must
    /// not start another frame while this is false.
    pub fn is_ready_to_present(&self) -> (r: bool)
        ensures
            r == spec_ready(*self),
    {
        !self.swap_pending
    }

    /// Notes that the page-flip completion callback has fired: the
    /// previously swapped buffer reached the display, and the adapter is
    /// ready for the next frame.
    pub fn frame_callback_fired(&mut self)
        ensures
            *final(self) == spec_after_frame_callback(*old(self)),
    {
        self.swap_pending = false;
    }

    /// Runs one frame against the given native outcomes: registers the
    /// completion callback first, makes the context current only if it
    /// is not, renders the transformed scene with the overlay hook, swaps
    /// and presents. The returned log lists the actions actually issued,
    /// in order; the first is always the callback registration. A swap
    /// is pending afterwards exactly when the whole frame succeeded.
    pub fn render_and_present(
        &mut self,
        rotation: RenderingRotation,
        outcomes: &FrameOutcomes,
    ) -> (r: (Result<(), RenderError>, Vec<FrameAction>))
        requires
            spec_ready(*old(self)),
        ensures
            r.1@ == spec_frame_log(
                rotation,
                PhysicalSize { width: old(self).width, height: old(self).height },
                *outcomes,
            ),
            r.0 is Ok ==> *final(self) == spec_after_successful_present(*old(self)),
            r.0 is Err ==> *final(self) == *old(self),
            (!outcomes.context_current && outcomes.activation is Err) ==> (r.0 matches Err(
                RenderError::ContextActivationError(m),
            ) && m@ == "FemtoVG: Error making context current: "@ + outcomes.activation->Err_0@),
            ((outcomes.context_current || outcomes.activation is Ok) && outcomes.render is Err)
                ==> (r.0 matches Err(RenderError::RenderPassError(m)) && m@
                == outcomes.render->Err_0@),
            ((outcomes.context_current || outcomes.activation is Ok) && outcomes.render is Ok
                && outcomes.swap is Err) ==> (r.0 matches Err(RenderError::BufferSwapError(m)) && m@
                == "FemtoVG: Error swapping buffers: "@ + outcomes.swap->Err_0@),
            ((outcomes.context_current || outcomes.activation is Ok) && outcomes.render is Ok
                && outcomes.swap is Ok && outcomes.present is Err) ==> (r.0 matches Err(
                RenderError::PresentError(m),
            ) && m@ == outcomes.present->Err_0@),
            ((outcomes.context_current || outcomes.activation is Ok) && outcomes.render is Ok
                && outcomes.swap is Ok && outcomes.present is Ok) ==> r.0 is Ok,
    {
        let mut log: Vec<FrameAction> = Vec::new();
        log.push(FrameAction::RegisterNextFrameCallback);
        if !outcomes.context_current {
            log.push(FrameAction::ActivateContext);
            match map_activation_outcome(clone_outcome(&outcomes.activation)) {
                Err(e) => {
                    return (Err(e), log);
                },
                Ok(()) => {},
            }
        }
        let translation = rotation.translation_after_rotation(
            PhysicalSize { width: self.width, height: self.height },
        );
        log.push(
            FrameAction::RenderScene {
                degrees: rotation.degrees(),
                translation_x: translation.0,
                translation_y: translation.1,
                width: self.width,
                height: self.height,
            },
        );
        match clone_outcome(&outcomes.render) {
            Err(e) => {
                return (Err(RenderError::RenderPassError(e)), log);
            },
            Ok(()) => {},
        }
        log.push(FrameAction::InvokeOverlay);
        log.push(FrameAction::SwapBuffers);
        match map_swap_outcome(clone_outcome(&outcomes.swap)) {
            Err(e) => {
                return (Err(e), log);
            },
            Ok(()) => {},
        }
        log.push(FrameAction::PresentFrame);
        match clone_outcome(&outcomes.present) {
            Err(e) => {
                return (Err(RenderError::PresentError(e)), log);
            },
            Ok(()) => {},
        }
        self.swap_pending = true;
        (Ok(()), log)
    }
}

} // verus!
