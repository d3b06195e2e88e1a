use kms_render::builder::{
    build_gpu_context, BuildAction, BuildOutcomes, ContextBuilder,
};
use kms_render::error::{ConfigIssue, RenderError};
use kms_render::gl_config::GlConfigCandidate;

fn ok() -> Result<(), String> {
    Ok(())
}

fn fail(text: &str) -> Result<(), String> {
    Err(text.to_string())
}

fn one_candidate() -> Vec<GlConfigCandidate> {
    vec![GlConfigCandidate { supports_transparency: false, num_samples: 0 }]
}

fn all_ok_outcomes() -> BuildOutcomes {
    BuildOutcomes {
        display: ok(),
        candidates: one_candidate(),
        modern_context: ok(),
        fallback_context: ok(),
        surface: ok(),
        activation: ok(),
    }
}

#[test]
fn zero_width_is_a_configuration_error_mentioning_width() {
    let r = ContextBuilder::begin(0, 600);
    match r {
        Err(RenderError::ConfigurationError(issue)) => {
            assert_eq!(issue, ConfigIssue::InvalidWidth(0));
            let message = RenderError::ConfigurationError(issue).message();
            assert!(message.contains("width"));
            assert_eq!(
                message,
                "Attempting to create window surface with an invalid width: 0"
            );
        },
        _ => panic!("expected a configuration error for the width"),
    }
}

#[test]
fn zero_height_is_a_configuration_error_mentioning_height() {
    let r = ContextBuilder::begin(800, 0);
    match r {
        Err(RenderError::ConfigurationError(issue)) => {
            assert_eq!(issue, ConfigIssue::InvalidHeight(0));
            assert!(RenderError::ConfigurationError(issue).message().contains("height"));
        },
        _ => panic!("expected a configuration error for the height"),
    }
}

#[test]
fn invalid_geometry_is_rejected_before_any_native_call() {
    let (r, log) = build_gpu_context(0, 600, &all_ok_outcomes());
    assert!(matches!(r, Err(RenderError::ConfigurationError(_))));
    assert!(log.is_empty());
}

#[test]
fn construction_succeeds_with_a_configuration() {
    let (r, log) = build_gpu_context(1920, 1080, &all_ok_outcomes());
    let model = r.expect("construction should succeed");
    assert_eq!(model.width, 1920);
    assert_eq!(model.height, 1080);
    assert!(!model.used_fallback);
    assert_eq!(
        log,
        vec![
            BuildAction::OpenGlDisplay,
            BuildAction::EnumerateConfigs,
            BuildAction::CreateContext { modern_api: true },
            BuildAction::CreateWindowSurface { width: 1920, height: 1080 },
            BuildAction::MakeContextCurrent,
        ]
    );
}

#[test]
fn construction_fails_without_a_configuration() {
    let mut outcomes = all_ok_outcomes();
    outcomes.candidates = Vec::new();
    let (r, log) = build_gpu_context(1920, 1080, &outcomes);
    match r {
        Err(RenderError::ConfigurationError(issue)) => {
            assert_eq!(issue, ConfigIssue::NoSuitableConfiguration);
            assert_eq!(
                RenderError::ConfigurationError(issue).message(),
                "Unable to find suitable GL config"
            );
        },
        _ => panic!("expected a configuration error"),
    }
    assert_eq!(log, vec![BuildAction::OpenGlDisplay, BuildAction::EnumerateConfigs]);
}

#[test]
fn display_failure_carries_the_native_text() {
    let mut outcomes = all_ok_outcomes();
    outcomes.display = fail("no DRM node");
    let (r, log) = build_gpu_context(1920, 1080, &outcomes);
    match r {
        Err(e @ RenderError::DisplayInitError(_)) => {
            assert_eq!(e.message(), "Error creating EGL display: no DRM node");
        },
        _ => panic!("expected a display initialization error"),
    }
    assert_eq!(log, vec![BuildAction::OpenGlDisplay]);
}

#[test]
fn failed_versioned_attempt_falls_back_and_succeeds() {
    let mut outcomes = all_ok_outcomes();
    outcomes.modern_context = fail("GLES 2.0 not offered");
    let (r, log) = build_gpu_context(1920, 1080, &outcomes);
    let model = r.expect("fallback should rescue construction");
    assert!(model.used_fallback);
    assert_eq!(
        log,
        vec![
            BuildAction::OpenGlDisplay,
            BuildAction::EnumerateConfigs,
            BuildAction::CreateContext { modern_api: true },
            BuildAction::CreateContext { modern_api: false },
            BuildAction::CreateWindowSurface { width: 1920, height: 1080 },
            BuildAction::MakeContextCurrent,
        ]
    );
}

#[test]
fn both_context_attempts_failing_aggregates_both_texts() {
    let mut outcomes = all_ok_outcomes();
    outcomes.modern_context = fail("versioned refused");
    outcomes.fallback_context = fail("fallback refused");
    let (r, _log) = build_gpu_context(1920, 1080, &outcomes);
    match r {
        Err(e @ RenderError::ContextCreationError { .. }) => {
            assert_eq!(
                e.message(),
                "Error creating EGL context: versioned refused; fallback attempt: fallback refused"
            );
        },
        _ => panic!("expected a context creation error"),
    }
}

#[test]
fn surface_failure_is_a_context_activation_error() {
    let mut outcomes = all_ok_outcomes();
    outcomes.surface = fail("out of buffers");
    let (r, _log) = build_gpu_context(1920, 1080, &outcomes);
    match r {
        Err(e @ RenderError::ContextActivationError(_)) => {
            assert_eq!(e.message(), "Error creating EGL window surface: out of buffers");
        },
        _ => panic!("expected a context activation error"),
    }
}

#[test]
fn activation_failure_carries_the_native_text() {
    let mut outcomes = all_ok_outcomes();
    outcomes.activation = fail("context lost");
    let (r, _log) = build_gpu_context(1920, 1080, &outcomes);
    match r {
        Err(e @ RenderError::ContextActivationError(_)) => {
            assert_eq!(
                e.message(),
                "FemtoVG Renderer: Failed to make newly created OpenGL context current: context lost"
            );
        },
        _ => panic!("expected a context activation error"),
    }
}

#[test]
fn builder_asks_for_the_steps_in_order() {
    let b = ContextBuilder::begin(640, 480).unwrap();
    assert_eq!(b.next_action(), BuildAction::OpenGlDisplay);
    let b = b.display_opened(ok()).unwrap();
    assert_eq!(b.next_action(), BuildAction::EnumerateConfigs);
    let b = b.configs_enumerated(&one_candidate()).unwrap();
    assert_eq!(b.next_action(), BuildAction::CreateContext { modern_api: true });
    let b = b.modern_context_attempted(fail("refused"));
    assert!(b.awaiting_fallback());
    assert_eq!(b.next_action(), BuildAction::CreateContext { modern_api: false });
    let b = b.fallback_context_attempted(ok()).unwrap();
    assert_eq!(b.next_action(), BuildAction::CreateWindowSurface { width: 640, height: 480 });
    let b = b.surface_created(ok()).unwrap();
    assert_eq!(b.next_action(), BuildAction::MakeContextCurrent);
    let b = b.context_activated(ok()).unwrap();
    assert!(b.is_complete());
    assert_eq!(b.next_action(), BuildAction::Finished);
}
