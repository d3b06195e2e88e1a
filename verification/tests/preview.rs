use kms_render::preview::{
    Diagnostic, LspToPreviewMessage, PreviewApi, PreviewComponent, PreviewConfig, PreviewError,
};

struct RecordingPreview {
    current: std::cell::RefCell<Option<PreviewComponent>>,
}

impl PreviewApi for RecordingPreview {
    fn set_use_external_previewer(&self, _use_external: bool) {}

    fn set_contents(&self, _path: &str, _contents: &str) {}

    fn load_preview(&self, component: PreviewComponent) {
        *self.current.borrow_mut() = Some(component);
    }

    fn config_changed(&self, _config: PreviewConfig) {}

    fn highlight(&self, path: Option<String>, _offset: u32) -> Result<(), PreviewError> {
        match path {
            Some(_) => Ok(()),
            None => Err(PreviewError { message: "nothing to highlight".to_string() }),
        }
    }

    fn current_component(&self) -> Option<PreviewComponent> {
        self.current.borrow().clone()
    }
}

#[test]
fn default_config_is_empty() {
    let config = PreviewConfig::default();
    assert_eq!(config.hide_ui, None);
    assert_eq!(config.style, "");
    assert!(config.include_paths.is_empty());
    assert!(config.library_paths.is_empty());
}

#[test]
fn default_component_is_empty() {
    let component = PreviewComponent::default();
    assert_eq!(component.path, "");
    assert!(component.component.is_none());
    assert_eq!(component.style, "");
}

#[test]
fn preview_api_round_trips_the_loaded_component() {
    let preview = RecordingPreview { current: std::cell::RefCell::new(None) };
    assert!(preview.current_component().is_none());
    preview.load_preview(PreviewComponent {
        path: "ui/main.slint".to_string(),
        component: Some("MainWindow".to_string()),
        style: "fluent".to_string(),
    });
    let current = preview.current_component().expect("a component was loaded");
    assert_eq!(current.path, "ui/main.slint");
    assert_eq!(current.component.as_deref(), Some("MainWindow"));
    assert_eq!(current.style, "fluent");
    assert!(preview.highlight(Some("ui/main.slint".to_string()), 12).is_ok());
    assert!(preview.highlight(None, 0).is_err());
}

#[test]
fn messages_carry_their_payloads() {
    let set = LspToPreviewMessage::SetContents {
        path: "ui/app.slint".to_string(),
        contents: "export component App {}".to_string(),
    };
    match set {
        LspToPreviewMessage::SetContents { path, contents } => {
            assert_eq!(path, "ui/app.slint");
            assert_eq!(contents, "export component App {}");
        },
        _ => panic!("wrong variant"),
    }
    let highlight = LspToPreviewMessage::HighlightFromEditor { path: None, offset: 42 };
    match highlight {
        LspToPreviewMessage::HighlightFromEditor { path, offset } => {
            assert!(path.is_none());
            assert_eq!(offset, 42);
        },
        _ => panic!("wrong variant"),
    }
}

#[test]
fn diagnostics_carry_position_and_level() {
    let d = Diagnostic {
        message: "unknown property".to_string(),
        file: Some("ui/app.slint".to_string()),
        line: 3,
        column: 9,
        level: "error".to_string(),
    };
    assert_eq!(d.message, "unknown property");
    assert_eq!(d.file.as_deref(), Some("ui/app.slint"));
    assert_eq!(d.line, 3);
    assert_eq!(d.column, 9);
    assert_eq!(d.level, "error");
}
