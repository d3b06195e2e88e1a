//! Error taxonomy of the rendering core.
//!
//! Every native-call failure is converted to a typed value carrying the
//! native diagnostic text verbatim; nothing aborts the process.

use vstd::prelude::*;
use vstd::string::StringExecFns;
use crate::decimal::{spec_decimal, u32_to_string};

verus! {

/// Why no usable rendering configuration could be produced.
#[derive(Clone, Copy, Debug, PartialEq, Eq, Structural)]
pub enum ConfigIssue {
    /// The display reported a width that is not strictly positive.
    InvalidWidth(u32),
    /// The display reported a height that is not strictly positive.
    InvalidHeight(u32),
    /// The native display offered no rendering configuration at all.
    NoSuitableConfiguration,
}

/// A failure of the GPU rendering-and-presentation core.
///
/// All are fatal to the render cycle that produced them and none is
/// silently retried here; retry policy belongs to the caller.
#[derive(Clone, Debug, PartialEq)]
pub enum RenderError {
    /// Invalid geometry, or no acceptable rendering configuration.
    ConfigurationError(ConfigIssue),
    /// Opening the low-level graphics display connection failed.
    DisplayInitError(String),
    /// Both the versioned and the fallback context creation attempts
    /// failed; both native diagnostics are kept.
    ContextCreationError { gles_error: String, fallback_error: String },
    /// Creating the drawable surface or making the context current failed.
    ContextActivationError(String),
    /// Submitting the back buffer through the swap primitive failed.
    BufferSwapError(String),
    /// The scene renderer's render pass failed; its text is kept unchanged.
    RenderPassError(String),
    /// The display connection's presentation step failed; its text is
    /// kept unchanged.
    PresentError(String),
}

/// The diagnostic text of a configuration issue.
pub open spec fn spec_config_issue_message(issue: ConfigIssue) -> Seq<char> {
    match issue {
        ConfigIssue::InvalidWidth(v) => "Attempting to create window surface with an invalid width: "@
            + spec_decimal(v as nat),
        ConfigIssue::InvalidHeight(v) => "Attempting to create window surface with an invalid height: "@
            + spec_decimal(v as nat),
        ConfigIssue::NoSuitableConfiguration => "Unable to find suitable GL config"@,
    }
}

/// The diagnostic text of an error, native detail embedded verbatim.
pub open spec fn spec_message(e: RenderError) -> Seq<char> {
    match e {
        RenderError::ConfigurationError(issue) => spec_config_issue_message(issue),
        RenderError::DisplayInitError(m) => m@,
        RenderError::ContextCreationError { gles_error, fallback_error } => "Error creating EGL context: "@
            + gles_error@ + "; fallback attempt: "@ + fallback_error@,
        RenderError::ContextActivationError(m) => m@,
        RenderError::BufferSwapError(m) => m@,
        RenderError::RenderPassError(m) => m@,
        RenderError::PresentError(m) => m@,
    }
}

/// Glues a fixed prefix to a native diagnostic.
pub fn prefixed(prefix: &str, detail: &str) -> (r: String)
    ensures
        r@ == prefix@ + detail@,
{
    prefix.to_owned().concat(detail)
}

impl RenderError {
    /// The operator-facing diagnostic text for this error.
    pub fn message(&self) -> (r: String)
        ensures
            r@ == spec_message(*self),
    {
        match self {
            RenderError::ConfigurationError(issue) => match issue {
                ConfigIssue::InvalidWidth(v) => {
                    let num = u32_to_string(*v);
                    prefixed(
                        "Attempting to create window surface with an invalid width: ",
                        num.as_str(),
                    )
                },
                ConfigIssue::InvalidHeight(v) => {
                    let num = u32_to_string(*v);
                    prefixed(
                        "Attempting to create window surface with an invalid height: ",
                        num.as_str(),
                    )
                },
                ConfigIssue::NoSuitableConfiguration => "Unable to find suitable GL config".to_owned(),
            },
            RenderError::DisplayInitError(m) => m.clone(),
            RenderError::ContextCreationError { gles_error, fallback_error } => "Error creating EGL context: "
                .to_owned()
                .concat(gles_error.as_str())
                .concat("; fallback attempt: ")
                .concat(fallback_error.as_str()),
            RenderError::ContextActivationError(m) => m.clone(),
            RenderError::BufferSwapError(m) => m.clone(),
            RenderError::RenderPassError(m) => m.clone(),
            RenderError::PresentError(m) => m.clone(),
        }
    }
}

} // verus!
