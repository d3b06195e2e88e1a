//! The ordered construction of the GPU context.
//!
//! Construction coordinates a fixed sequence of fallible native steps:
//! validate the geometry, open the low-level graphics display, enumerate
//! and choose a rendering configuration, create the context (a versioned
//! attempt with an unversioned fallback), create the drawable surface,
//! and make the context current. The sequence and every decision in it
//! are verified here; the native calls themselves are performed by the
//! caller, which hands each outcome back.

use vstd::prelude::*;
use vstd::pervasive::unreached;
use crate::error::{prefixed, ConfigIssue, RenderError};
use crate::gl_config::{select_config, spec_is_selected, GlConfigCandidate};

verus! {

/// Where the construction sequence stands.
#[derive(Clone, Debug, PartialEq)]
pub enum BuildPhase {
    /// The geometry is validated; the native display must be opened.
    SizeValidated,
    /// The display is open; configurations must be enumerated.
    DisplayReady,
    /// A configuration is chosen; the versioned context attempt is next.
    ConfigChosen { config: GlConfigCandidate },
    /// The versioned attempt failed; its error is kept while the
    /// fallback attempt runs.
    AwaitingFallback { config: GlConfigCandidate, gles_error: String },
    /// A context exists; the drawable surface must be created.
    ContextReady { config: GlConfigCandidate, used_fallback: bool },
    /// The surface exists; the context must be made current on it.
    SurfaceReady { config: GlConfigCandidate, used_fallback: bool },
    /// Construction is complete.
    Complete { config: GlConfigCandidate, used_fallback: bool },
}

/// The next native step the construction sequence asks for.
#[derive(Clone, Copy, Debug, PartialEq, Eq, Structural)]
pub enum BuildAction {
    OpenGlDisplay,
    EnumerateConfigs,
    CreateContext { modern_api: bool },
    CreateWindowSurface { width: u32, height: u32 },
    MakeContextCurrent,
    Finished,
}

/// Drives the construction sequence: the caller asks for the next action,
/// performs it natively, and hands the outcome back.
#[derive(Debug)]
pub struct ContextBuilder {
    pub width: u32,
    pub height: u32,
    pub phase: BuildPhase,
}

/// The native step asked for in each phase.
pub open spec fn spec_next_build_action(b: ContextBuilder) -> BuildAction {
    match b.phase {
        BuildPhase::SizeValidated => BuildAction::OpenGlDisplay,
        BuildPhase::DisplayReady => BuildAction::EnumerateConfigs,
        BuildPhase::ConfigChosen { .. } => BuildAction::CreateContext { modern_api: true },
        BuildPhase::AwaitingFallback { .. } => BuildAction::CreateContext { modern_api: false },
        BuildPhase::ContextReady { .. } => BuildAction::CreateWindowSurface {
            width: b.width,
            height: b.height,
        },
        BuildPhase::SurfaceReady { .. } => BuildAction::MakeContextCurrent,
        BuildPhase::Complete { .. } => BuildAction::Finished,
    }
}

impl ContextBuilder {
    /// Validates the display geometry, width first: both dimensions must
    /// be strictly positive. Rejection happens before any native call.
    pub fn begin(width: u32, height: u32) -> (r: Result<ContextBuilder, RenderError>)
        ensures
            width == 0 ==> r == Err::<ContextBuilder, RenderError>(
                RenderError::ConfigurationError(ConfigIssue::InvalidWidth(width)),
            ),
            width > 0 && height == 0 ==> r == Err::<ContextBuilder, RenderError>(
                RenderError::ConfigurationError(ConfigIssue::InvalidHeight(height)),
            ),
            width > 0 && height > 0 ==> r == Ok::<ContextBuilder, RenderError>(
                ContextBuilder { width, height, phase: BuildPhase::SizeValidated },
            ),
    {
        if width == 0 {
            Err(RenderError::ConfigurationError(ConfigIssue::InvalidWidth(width)))
        } else if height == 0 {
            Err(RenderError::ConfigurationError(ConfigIssue::InvalidHeight(height)))
        } else {
            Ok(ContextBuilder { width, height, phase: BuildPhase::SizeValidated })
        }
    }

    /// The next native step to perform.
    pub fn next_action(&self) -> (a: BuildAction)
        ensures
            a == spec_next_build_action(*self),
    {
        match &self.phase {
            BuildPhase::SizeValidated => BuildAction::OpenGlDisplay,
            BuildPhase::DisplayReady => BuildAction::EnumerateConfigs,
            BuildPhase::ConfigChosen { .. } => BuildAction::CreateContext { modern_api: true },
            BuildPhase::AwaitingFallback { .. } => BuildAction::CreateContext {
                modern_api: false,
            },
            BuildPhase::ContextReady { .. } => BuildAction::CreateWindowSurface {
                width: self.width,
                height: self.height,
            },
            BuildPhase::SurfaceReady { .. } => BuildAction::MakeContextCurrent,
            BuildPhase::Complete { .. } => BuildAction::Finished,
        }
    }

    /// Whether the fallback context attempt is the pending step.
    pub fn awaiting_fallback(&self) -> (r: bool)
        ensures
            r == (self.phase is AwaitingFallback),
    {
        matches!(self.phase, BuildPhase::AwaitingFallback { .. })
    }

    /// Whether construction is complete.
    pub fn is_complete(&self) -> (r: bool)
        ensures
            r == (self.phase is Complete),
    {
        matches!(self.phase, BuildPhase::Complete { .. })
    }

    /// Consumes the outcome of opening the low-level graphics display;
    /// failure is a `DisplayInitError` carrying the native text.
    pub fn display_opened(self, outcome: Result<(), String>) -> (r: Result<ContextBuilder, RenderError>)
        requires
            self.phase is SizeValidated,
        ensures
            outcome is Ok ==> r == Ok::<ContextBuilder, RenderError>(
                ContextBuilder { width: self.width, height: self.height, phase: BuildPhase::DisplayReady },
            ),
            outcome matches Err(e) ==> (r matches Err(RenderError::DisplayInitError(m))
                && m@ == "Error creating EGL display: "@ + e@),
    {
        match outcome {
            Ok(()) => Ok(
                ContextBuilder {
                    width: self.width,
                    height: self.height,
                    phase: BuildPhase::DisplayReady,
                },
            ),
            Err(e) => Err(
                RenderError::DisplayInitError(prefixed("Error creating EGL display: ", e.as_str())),
            ),
        }
    }

    /// Consumes the enumerated configurations and chooses one by the
    /// deterministic preference; an empty enumeration is a
    /// `ConfigurationError`.
    pub fn configs_enumerated(self, candidates: &Vec<GlConfigCandidate>) -> (r: Result<
        ContextBuilder,
        RenderError,
    >)
        requires
            self.phase is DisplayReady,
        ensures
            candidates@.len() == 0 ==> r == Err::<ContextBuilder, RenderError>(
                RenderError::ConfigurationError(ConfigIssue::NoSuitableConfiguration),
            ),
            candidates@.len() > 0 ==> (r matches Ok(b) && b.width == self.width && b.height
                == self.height && (b.phase matches BuildPhase::ConfigChosen { config } && exists|i: int|
                spec_is_selected(candidates@, i) && candidates@[i] == config)),
    {
        match select_config(candidates) {
            None => Err(RenderError::ConfigurationError(ConfigIssue::NoSuitableConfiguration)),
            Some(i) => {
                proof {
                    assert(spec_is_selected(candidates@, i as int));
                }
                Ok(
                    ContextBuilder {
                        width: self.width,
                        height: self.height,
                        phase: BuildPhase::ConfigChosen { config: candidates[i] },
                    },
                )
            },
        }
    }

    /// Consumes the outcome of the versioned context-creation attempt.
    /// Failure is not yet an error: the native text is kept and the
    /// fallback attempt becomes the pending step.
    pub fn modern_context_attempted(self, outcome: Result<(), String>) -> (r: ContextBuilder)
        requires
            self.phase is ConfigChosen,
        ensures
            r.width == self.width && r.height == self.height,
            outcome is Ok ==> (self.phase matches BuildPhase::ConfigChosen { config: c0 }
                && r.phase matches BuildPhase::ContextReady { config, used_fallback } && config == c0
                && !used_fallback),
            outcome matches Err(e) ==> (self.phase matches BuildPhase::ConfigChosen { config: c0 }
                && r.phase matches BuildPhase::AwaitingFallback { config, gles_error } && config == c0
                && gles_error@ == e@),
    {
        let config = match self.phase {
            BuildPhase::ConfigChosen { config } => config,
            _ => unreached(),
        };
        match outcome {
            Ok(()) => ContextBuilder {
                width: self.width,
                height: self.height,
                phase: BuildPhase::ContextReady { config, used_fallback: false },
            },
            Err(e) => ContextBuilder {
                width: self.width,
                height: self.height,
                phase: BuildPhase::AwaitingFallback { config, gles_error: e },
            },
        }
    }

    /// Consumes the outcome of the unversioned fallback attempt. Success
    /// completes context creation; failure is a `ContextCreationError`
    /// aggregating both attempts' native texts.
    pub fn fallback_context_attempted(self, outcome: Result<(), String>) -> (r: Result<
        ContextBuilder,
        RenderError,
    >)
        requires
            self.phase is AwaitingFallback,
        ensures
            outcome is Ok ==> (self.phase matches BuildPhase::AwaitingFallback { config: c0, .. }
                && r matches Ok(b) && b.width == self.width && b.height == self.height
                && (b.phase matches BuildPhase::ContextReady { config, used_fallback } && config == c0
                && used_fallback)),
            outcome matches Err(e) ==> (self.phase matches BuildPhase::AwaitingFallback {
                gles_error: g,
                ..
            } && r matches Err(RenderError::ContextCreationError { gles_error, fallback_error })
                && gles_error@ == g@ && fallback_error@ == e@),
    {
        let (config, gles_error) = match self.phase {
            BuildPhase::AwaitingFallback { config, gles_error } => (config, gles_error),
            _ => unreached(),
        };
        match outcome {
            Ok(()) => Ok(
                ContextBuilder {
                    width: self.width,
                    height: self.height,
                    phase: BuildPhase::ContextReady { config, used_fallback: true },
                },
            ),
            Err(e) => Err(RenderError::ContextCreationError { gles_error, fallback_error: e }),
        }
    }

    /// Consumes the outcome of creating the drawable surface bound to the
    /// window handle and the validated size; failure is a
    /// `ContextActivationError` carrying the native text.
    pub fn surface_created(self, outcome: Result<(), String>) -> (r: Result<
        ContextBuilder,
        RenderError,
    >)
        requires
            self.phase is ContextReady,
        ensures
            outcome is Ok ==> (self.phase matches BuildPhase::ContextReady {
                config: c0,
                used_fallback: f0,
            } && r matches Ok(b) && b.width == self.width && b.height == self.height
                && (b.phase matches BuildPhase::SurfaceReady { config, used_fallback } && config == c0
                && used_fallback == f0)),
            outcome matches Err(e) ==> (r matches Err(RenderError::ContextActivationError(m)) && m@
                == "Error creating EGL window surface: "@ + e@),
    {
        let (config, used_fallback) = match self.phase {
            BuildPhase::ContextReady { config, used_fallback } => (config, used_fallback),
            _ => unreached(),
        };
        match outcome {
            Ok(()) => Ok(
                ContextBuilder {
                    width: self.width,
                    height: self.height,
                    phase: BuildPhase::SurfaceReady { config, used_fallback },
                },
            ),
            Err(e) => Err(
                RenderError::ContextActivationError(
                    prefixed("Error creating EGL window surface: ", e.as_str()),
                ),
            ),
        }
    }

    /// Consumes the outcome of making the new context current on its
    /// surface, attempted once; failure is a `ContextActivationError`
    /// carrying the native text.
    pub fn context_activated(self, outcome: Result<(), String>) -> (r: Result<
        ContextBuilder,
        RenderError,
    >)
        requires
            self.phase is SurfaceReady,
        ensures
            outcome is Ok ==> (self.phase matches BuildPhase::SurfaceReady {
                config: c0,
                used_fallback: f0,
            } && r matches Ok(b) && b.width == self.width && b.height == self.height
                && (b.phase matches BuildPhase::Complete { config, used_fallback } && config == c0
                && used_fallback == f0)),
            outcome matches Err(e) ==> (r matches Err(RenderError::ContextActivationError(m)) && m@
                == "FemtoVG Renderer: Failed to make newly created OpenGL context current: "@ + e@),
    {
        let (config, used_fallback) = match self.phase {
            BuildPhase::SurfaceReady { config, used_fallback } => (config, used_fallback),
            _ => unreached(),
        };
        match outcome {
            Ok(()) => Ok(
                ContextBuilder {
                    width: self.width,
                    height: self.height,
                    phase: BuildPhase::Complete { config, used_fallback },
                },
            ),
            Err(e) => Err(
                RenderError::ContextActivationError(
                    prefixed(
                        "FemtoVG Renderer: Failed to make newly created OpenGL context current: ",
                        e.as_str(),
                    ),
                ),
            ),
        }
    }
}

/// Copies a native outcome so the construction model can consume it.
pub fn clone_outcome(o: &Result<(), String>) -> (r: Result<(), String>)
    ensures
        o is Ok ==> r is Ok,
        o matches Err(e) ==> (r matches Err(e2) && e2@ == e@),
{
    match o {
        Ok(()) => Ok(()),
        Err(e) => Err(e.clone()),
    }
}

/// What every native call construction would make answered, gathered so
/// the deterministic part of construction can be run and checked on its
/// own. The log of actions shows which calls were actually reached.
pub struct BuildOutcomes {
    pub display: Result<(), String>,
    pub candidates: Vec<GlConfigCandidate>,
    pub modern_context: Result<(), String>,
    pub fallback_context: Result<(), String>,
    pub surface: Result<(), String>,
    pub activation: Result<(), String>,
}

/// The model of a fully constructed GPU context: the validated geometry,
/// the configuration that was chosen, and which creation attempt won.
#[derive(Clone, Copy, Debug, PartialEq, Eq, Structural)]
pub struct GpuContextModel {
    pub width: u32,
    pub height: u32,
    pub config: GlConfigCandidate,
    pub used_fallback: bool,
}

/// The native calls construction reaches, in order, for given outcomes:
/// nothing at all for invalid geometry, and otherwise each step up to and
/// including the first that fails.
pub open spec fn spec_build_log(width: u32, height: u32, o: BuildOutcomes) -> Seq<BuildAction> {
    if width == 0 || height == 0 {
        Seq::empty()
    } else if o.display is Err {
        seq![BuildAction::OpenGlDisplay]
    } else if o.candidates@.len() == 0 {
        seq![BuildAction::OpenGlDisplay, BuildAction::EnumerateConfigs]
    } else {
        let attempts = if o.modern_context is Ok {
            seq![
                BuildAction::OpenGlDisplay,
                BuildAction::EnumerateConfigs,
                BuildAction::CreateContext { modern_api: true },
            ]
        } else {
            seq![
                BuildAction::OpenGlDisplay,
                BuildAction::EnumerateConfigs,
                BuildAction::CreateContext { modern_api: true },
                BuildAction::CreateContext { modern_api: false },
            ]
        };
        if o.modern_context is Err && o.fallback_context is Err {
            attempts
        } else {
            let with_surface = attempts.push(BuildAction::CreateWindowSurface { width, height });
            if o.surface is Err {
                with_surface
            } else {
                with_surface.push(BuildAction::MakeContextCurrent)
            }
        }
    }
}

/// Runs the whole construction sequence against the given native
/// outcomes. Construction succeeds exactly when the geometry is strictly
/// positive, a configuration exists, a context attempt succeeds, and the
/// surface and activation calls succeed; invalid geometry is rejected
/// before any native call, and a failed versioned context attempt falls
/// back to the unversioned one.
pub fn build_gpu_context(width: u32, height: u32, outcomes: &BuildOutcomes) -> (r: (
    Result<GpuContextModel, RenderError>,
    Vec<BuildAction>,
))
    ensures
        r.1@ == spec_build_log(width, height, *outcomes),
        width == 0 ==> (r.0 matches Err(RenderError::ConfigurationError(issue)) && issue
            == ConfigIssue::InvalidWidth(width)),
        width > 0 && height == 0 ==> (r.0 matches Err(RenderError::ConfigurationError(issue))
            && issue == ConfigIssue::InvalidHeight(height)),
        (width > 0 && height > 0 && outcomes.display is Err) ==> (r.0 matches Err(
            RenderError::DisplayInitError(m),
        ) && m@ == "Error creating EGL display: "@ + outcomes.display->Err_0@),
        (width > 0 && height > 0 && outcomes.display is Ok && outcomes.candidates@.len() == 0)
            ==> (r.0 matches Err(RenderError::ConfigurationError(issue)) && issue
            == ConfigIssue::NoSuitableConfiguration),
        (width > 0 && height > 0 && outcomes.display is Ok && outcomes.candidates@.len() > 0
            && outcomes.modern_context is Err && outcomes.fallback_context is Err) ==> (r.0 matches
            Err(RenderError::ContextCreationError { gles_error, fallback_error }) && gles_error@
            == outcomes.modern_context->Err_0@ && fallback_error@
            == outcomes.fallback_context->Err_0@),
        (width > 0 && height > 0 && outcomes.display is Ok && outcomes.candidates@.len() > 0
            && (outcomes.modern_context is Ok || outcomes.fallback_context is Ok)
            && outcomes.surface is Err) ==> (r.0 matches Err(RenderError::ContextActivationError(m))
            && m@ == "Error creating EGL window surface: "@ + outcomes.surface->Err_0@),
        (width > 0 && height > 0 && outcomes.display is Ok && outcomes.candidates@.len() > 0
            && (outcomes.modern_context is Ok || outcomes.fallback_context is Ok)
            && outcomes.surface is Ok && outcomes.activation is Err) ==> (r.0 matches Err(
            RenderError::ContextActivationError(m),
        ) && m@ == "FemtoVG Renderer: Failed to make newly created OpenGL context current: "@
            + outcomes.activation->Err_0@),
        (width > 0 && height > 0 && outcomes.display is Ok && outcomes.candidates@.len() > 0
            && (outcomes.modern_context is Ok || outcomes.fallback_context is Ok)
            && outcomes.surface is Ok && outcomes.activation is Ok) ==> (r.0 matches Ok(m)
            && m.width == width && m.height == height && m.used_fallback
            == (outcomes.modern_context is Err) && exists|i: int|
        spec_is_selected(outcomes.candidates@, i) && outcomes.candidates@[i] == m.config),
        (width > 0 && height > 0 && outcomes.display is Ok && outcomes.modern_context is Ok
            && outcomes.surface is Ok && outcomes.activation is Ok) ==> ((r.0 is Ok)
            <==> outcomes.candidates@.len() > 0),
{
    let mut log: Vec<BuildAction> = Vec::new();
    let b = match ContextBuilder::begin(width, height) {
        Err(e) => {
            return (Err(e), log);
        },
        Ok(b) => b,
    };
    log.push(BuildAction::OpenGlDisplay);
    let b = match b.display_opened(clone_outcome(&outcomes.display)) {
        Err(e) => {
            return (Err(e), log);
        },
        Ok(b) => b,
    };
    log.push(BuildAction::EnumerateConfigs);
    let b = match b.configs_enumerated(&outcomes.candidates) {
        Err(e) => {
            return (Err(e), log);
        },
        Ok(b) => b,
    };
    log.push(BuildAction::CreateContext { modern_api: true });
    let b = b.modern_context_attempted(clone_outcome(&outcomes.modern_context));
    let b = if b.awaiting_fallback() {
        log.push(BuildAction::CreateContext { modern_api: false });
        match b.fallback_context_attempted(clone_outcome(&outcomes.fallback_context)) {
            Err(e) => {
                return (Err(e), log);
            },
            Ok(b) => b,
        }
    } else {
        b
    };
    log.push(BuildAction::CreateWindowSurface { width, height });
    let b = match b.surface_created(clone_outcome(&outcomes.surface)) {
        Err(e) => {
            return (Err(e), log);
        },
        Ok(b) => b,
    };
    log.push(BuildAction::MakeContextCurrent);
    let b = match b.context_activated(clone_outcome(&outcomes.activation)) {
        Err(e) => {
            return (Err(e), log);
        },
        Ok(b) => b,
    };
    match b.phase {
        BuildPhase::Complete { config, used_fallback } => (
            Ok(GpuContextModel { width, height, config, used_fallback }),
            log,
        ),
        _ => unreached(),
    }
}

} // verus!
