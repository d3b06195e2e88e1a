//! The per-frame cycle: which native steps one frame issues, in which
//! order, and which outcomes cut the frame short.

use vstd::prelude::*;
use crate::rotation::{spec_degrees, spec_translation, RenderingRotation};
use crate::PhysicalSize;

verus! {

/// One step of the per-frame cycle, in the order the cycle issues them.
#[derive(Clone, Copy, Debug, PartialEq, Eq, Structural)]
pub enum FrameAction {
    /// Hand the next-frame callback to the display connection. Always
    /// the first step, so that presentation scheduling racing with
    /// render completion can never miss the callback.
    RegisterNextFrameCallback,
    /// Make the owned context current; issued only when the thread
    /// reports it is not current.
    ActivateContext,
    /// The scene renderer's transformed render pass.
    RenderScene { degrees: u32, translation_x: u32, translation_y: u32, width: u32, height: u32 },
    /// The overlay hook, drawn once after scene content, before the swap.
    InvokeOverlay,
    /// Submit the back buffer through the swap primitive.
    SwapBuffers,
    /// Hand the just-swapped buffer to the display's presentation path.
    PresentFrame,
}

/// What every native call of one frame answered. `context_current` is
/// what the thread reports as the cycle begins; the activation outcome
/// matters only when it is false.
pub struct FrameOutcomes {
    pub context_current: bool,
    pub activation: Result<(), String>,
    pub render: Result<(), String>,
    pub swap: Result<(), String>,
    pub present: Result<(), String>,
}

/// The actions one frame issues, in order, for the given outcomes: the
/// callback registration always comes first, activation only when the
/// context is not current, and each later step is reached only when
/// everything before it succeeded.
pub open spec fn spec_frame_log(
    rotation: RenderingRotation,
    size: PhysicalSize,
    o: FrameOutcomes,
) -> Seq<FrameAction> {
    let start = if o.context_current {
        seq![FrameAction::RegisterNextFrameCallback]
    } else {
        seq![FrameAction::RegisterNextFrameCallback, FrameAction::ActivateContext]
    };
    if !o.context_current && o.activation is Err {
        start
    } else {
        let drawn = start.push(
            FrameAction::RenderScene {
                degrees: spec_degrees(rotation),
                translation_x: spec_translation(rotation, size).0,
                translation_y: spec_translation(rotation, size).1,
                width: size.width,
                height: size.height,
            },
        );
        if o.render is Err {
            drawn
        } else {
            let swapped = drawn.push(FrameAction::InvokeOverlay).push(FrameAction::SwapBuffers);
            if o.swap is Err {
                swapped
            } else {
                swapped.push(FrameAction::PresentFrame)
            }
        }
    }
}

/// The completion callback is registered before any draw call is issued:
/// whatever the outcomes, the frame's log begins with the registration,
/// and every render pass stands strictly after it.
pub proof fn lemma_callback_registered_before_draw(
    rotation: RenderingRotation,
    size: PhysicalSize,
    o: FrameOutcomes,
)
    ensures
        spec_frame_log(rotation, size, o).len() > 0,
        spec_frame_log(rotation, size, o)[0] == FrameAction::RegisterNextFrameCallback,
        forall|k: int|
            0 <= k < spec_frame_log(rotation, size, o).len() && spec_frame_log(rotation, size, o)[k]
                is RenderScene ==> k >= 1,
{
}

} // verus!
