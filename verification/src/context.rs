//! The GL context wrapper: one native rendering context and one drawable
//! surface, created together during construction and never recreated.
//!
//! The safe `glutin` calls the per-frame path needs stand behind trusted
//! wrappers here; the check-then-activate decision and the error mapping
//! around them are verified.

use vstd::prelude::*;
use glutin::context::PossiblyCurrentContext;
use glutin::prelude::PossiblyCurrentGlContext;
use glutin::surface::{GlSurface, Surface, WindowSurface};
use crate::error::{prefixed, RenderError};

verus! {

#[verifier::external_type_specification]
#[verifier::external_body]
pub struct ExPossiblyCurrentContext(PossiblyCurrentContext);

/// Holds glutin's window-backed drawable surface. The surface type is
/// generic over a marker trait of glutin, which Verus cannot take in a
/// type declaration, so the value is held opaquely here; the unverified
/// construction code fills the field directly.
#[verifier::external_body]
pub struct DrawSurface {
    pub surface: Surface<WindowSurface>,
}

/// Relies on glutin's `PossiblyCurrentGlContext::is_current`: whether this
/// context is the calling thread's active one. The answer is thread state
/// that foreign code may change at any time, so nothing is stated of it.
#[verifier::external_body]
fn gl_is_current(context: &PossiblyCurrentContext) -> bool {
    context.is_current()
}

/// Relies on glutin's `PossiblyCurrentGlContext::make_current`: binds the
/// context to the calling thread against `surface`. The outcome depends on
/// the driver, so nothing is stated of it; the error text is handed on.
#[verifier::external_body]
fn gl_make_current(
    context: &PossiblyCurrentContext,
    surface: &DrawSurface,
) -> Result<(), String> {
    context.make_current(&surface.surface).map_err(|e| format!("{e}"))
}

/// Relies on glutin's `GlSurface::swap_buffers`: submits the back buffer
/// of `surface`. The outcome depends on the driver, so nothing is stated
/// of it; the error text is handed on.
#[verifier::external_body]
fn gl_swap_buffers(
    surface: &DrawSurface,
    context: &PossiblyCurrentContext,
) -> Result<(), String> {
    surface.surface.swap_buffers(context).map_err(|e| format!("{e}"))
}

/// Maps the outcome of a native activation call to the core's error type:
/// success passes through, failure becomes a `ContextActivationError`
/// embedding the native text.
pub fn map_activation_outcome(outcome: Result<(), String>) -> (r: Result<(), RenderError>)
    ensures
        outcome is Ok ==> r is Ok,
        outcome is Err ==> (r matches Err(RenderError::ContextActivationError(m))
            && m@ == "FemtoVG: Error making context current: "@ + outcome->Err_0@),
{
    match outcome {
        Ok(()) => Ok(()),
        Err(e) => Err(
            RenderError::ContextActivationError(
                prefixed("FemtoVG: Error making context current: ", e.as_str()),
            ),
        ),
    }
}

/// Maps the outcome of a native buffer-swap call to the core's error type:
/// success passes through, failure becomes a `BufferSwapError` embedding
/// the native text.
pub fn map_swap_outcome(outcome: Result<(), String>) -> (r: Result<(), RenderError>)
    ensures
        outcome is Ok ==> r is Ok,
        outcome is Err ==> (r matches Err(RenderError::BufferSwapError(m))
            && m@ == "FemtoVG: Error swapping buffers: "@ + outcome->Err_0@),
{
    match outcome {
        Ok(()) => Ok(()),
        Err(e) => Err(
            RenderError::BufferSwapError(
                prefixed("FemtoVG: Error swapping buffers: ", e.as_str()),
            ),
        ),
    }
}

/// The thread's context-binding state as the core observes it: whether the
/// owned context is the one currently bound. Foreign presentation code may
/// displace the context between frames; that is a change of this state.
#[derive(Clone, Copy, Debug, PartialEq, Eq, Structural)]
pub struct ContextCurrency {
    pub current: bool,
}

/// The check-then-activate step on the currency state: the resulting state
/// is always current, and an activation is performed exactly when the
/// context was not already current.
pub open spec fn spec_ensure_current_step(c: ContextCurrency) -> (ContextCurrency, bool) {
    (ContextCurrency { current: true }, !c.current)
}

/// Decides whether `ensure_current` must perform a native activation.
pub fn ensure_current_step(c: ContextCurrency) -> (r: (ContextCurrency, bool))
    ensures
        r == spec_ensure_current_step(c),
{
    (ContextCurrency { current: true }, !c.current)
}

/// Making the context current is idempotent: with no intervening context
/// theft, the second of two consecutive `ensure_current` steps never
/// activates, so the two steps perform at most one native activation.
pub proof fn lemma_ensure_current_idempotent(c0: ContextCurrency)
    ensures
        ({
            let (c1, activated1) = spec_ensure_current_step(c0);
            let (c2, activated2) = spec_ensure_current_step(c1);
            &&& !activated2
            &&& activated1 == !c0.current
            &&& (if activated1 { 1int } else { 0int }) + (if activated2 { 1int } else { 0int }) <= 1
        }),
{
}

/// Owns exactly one native rendering context and one drawable surface,
/// both created by the construction sequence in `builder` and handed in
/// here once complete.
pub struct GlContextWrapper {
    context: PossiblyCurrentContext,
    surface: DrawSurface,
    width: u32,
    height: u32,
}

impl GlContextWrapper {
    /// The width the drawable surface was created with.
    pub closed spec fn spec_width(&self) -> u32 {
        self.width
    }

    /// The height the drawable surface was created with.
    pub closed spec fn spec_height(&self) -> u32 {
        self.height
    }

    /// Assembles the wrapper from the parts the construction sequence
    /// produced. The size is the one the surface was created with.
    pub fn from_parts(
        context: PossiblyCurrentContext,
        surface: DrawSurface,
        width: u32,
        height: u32,
    ) -> (r: GlContextWrapper)
        ensures
            r.spec_width() == width,
            r.spec_height() == height,
    {
        GlContextWrapper { context, surface, width, height }
    }

    pub fn width(&self) -> (r: u32)
        ensures
            r == self.spec_width(),
    {
        self.width
    }

    pub fn height(&self) -> (r: u32)
        ensures
            r == self.spec_height(),
    {
        self.height
    }

    /// Checks whether the context is still the thread's active one and,
    /// only if it is not, makes it current against the owned surface.
    /// Whatever the driver answers, a failure is a
    /// `ContextActivationError` carrying the native text.
    pub fn ensure_current(&self) -> (r: Result<(), RenderError>)
        ensures
            r is Err ==> r->Err_0 is ContextActivationError,
    {
        if gl_is_current(&self.context) {
            Ok(())
        } else {
            map_activation_outcome(gl_make_current(&self.context, &self.surface))
        }
    }

    /// Submits the back buffer through the swap primitive. Whatever the
    /// driver answers, a failure is a `BufferSwapError` carrying the
    /// native text. Handing the buffer on to the display's presentation
    /// path is the frame cycle's next step, not this call's.
    pub fn swap_buffers(&self) -> (r: Result<(), RenderError>)
        ensures
            r is Err ==> r->Err_0 is BufferSwapError,
    {
        map_swap_outcome(gl_swap_buffers(&self.surface, &self.context))
    }

    /// Intentionally a no-op that always succeeds: the backing display
    /// geometry is fixed for a kernel mode-setting target, so a reported
    /// size change does not alter the drawable surface.
    pub fn resize(&self, _width: u32, _height: u32) -> (r: Result<(), RenderError>)
        ensures
            r is Ok,
    {
        Ok(())
    }

    /// The native context, for function-pointer resolution by the scene
    /// renderer's loader, which has no failure signal of its own.
    pub fn glutin_context(&self) -> &PossiblyCurrentContext {
        &self.context
    }
}

} // verus!
