use kms_render::decimal::u32_to_string;
use kms_render::error::{ConfigIssue, RenderError};

#[test]
fn decimal_rendering_is_exact() {
    assert_eq!(u32_to_string(0), "0");
    assert_eq!(u32_to_string(7), "7");
    assert_eq!(u32_to_string(10), "10");
    assert_eq!(u32_to_string(1080), "1080");
    assert_eq!(u32_to_string(1920), "1920");
    assert_eq!(u32_to_string(u32::MAX), "4294967295");
}

#[test]
fn configuration_messages_name_the_dimension() {
    let width = RenderError::ConfigurationError(ConfigIssue::InvalidWidth(0)).message();
    assert_eq!(width, "Attempting to create window surface with an invalid width: 0");
    let height = RenderError::ConfigurationError(ConfigIssue::InvalidHeight(0)).message();
    assert_eq!(height, "Attempting to create window surface with an invalid height: 0");
    let none = RenderError::ConfigurationError(ConfigIssue::NoSuitableConfiguration).message();
    assert_eq!(none, "Unable to find suitable GL config");
}

#[test]
fn native_detail_is_kept_verbatim() {
    assert_eq!(
        RenderError::DisplayInitError("EGL_BAD_DISPLAY".to_string()).message(),
        "EGL_BAD_DISPLAY"
    );
    assert_eq!(
        RenderError::ContextActivationError("EGL_BAD_ACCESS".to_string()).message(),
        "EGL_BAD_ACCESS"
    );
    assert_eq!(
        RenderError::BufferSwapError("EGL_BAD_SURFACE".to_string()).message(),
        "EGL_BAD_SURFACE"
    );
    assert_eq!(RenderError::RenderPassError("oops".to_string()).message(), "oops");
    assert_eq!(RenderError::PresentError("flip".to_string()).message(), "flip");
}

#[test]
fn context_creation_message_aggregates_both_attempts() {
    let e = RenderError::ContextCreationError {
        gles_error: "no GLES 2.0".to_string(),
        fallback_error: "no context at all".to_string(),
    };
    assert_eq!(
        e.message(),
        "Error creating EGL context: no GLES 2.0; fallback attempt: no context at all"
    );
}
