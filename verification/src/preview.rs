//! Data structures shared between the language server and the live
//! preview. Pure data interchange: no concurrency or resource-lifetime
//! hazards live here.

use vstd::prelude::*;
use std::collections::HashMap;

verus! {

/// An error reported by a preview operation.
#[derive(Clone, Debug, PartialEq)]
pub struct PreviewError {
    pub message: String,
}

/// Settings the preview follows.
#[derive(Clone, Debug, PartialEq)]
pub struct PreviewConfig {
    pub hide_ui: Option<bool>,
    pub style: String,
    pub include_paths: Vec<String>,
    pub library_paths: HashMap<String, String>,
}

impl Default for PreviewConfig {
    /// The empty configuration: no UI preference, empty style, no paths.
    fn default() -> (r: PreviewConfig)
        ensures
            r.hide_ui is None,
            r.style@ == Seq::<char>::empty(),
            r.include_paths@ == Seq::<String>::empty(),
            r.library_paths@ == Map::<String, String>::empty(),
    {
        PreviewConfig {
            hide_ui: None,
            style: String::new(),
            include_paths: Vec::new(),
            library_paths: HashMap::new(),
        }
    }
}

/// The component to preview.
#[derive(Clone, Debug)]
pub struct PreviewComponent {
    /// The file to preview.
    pub path: String,
    /// The name of the component within that file; `None` shows the
    /// file's last component.
    pub component: Option<String>,
    /// The style name for the preview.
    pub style: String,
}

impl Default for PreviewComponent {
    /// The empty selection: no file, no component, empty style.
    fn default() -> (r: PreviewComponent)
        ensures
            r.path@ == Seq::<char>::empty(),
            r.component is None,
            r.style@ == Seq::<char>::empty(),
    {
        PreviewComponent { path: String::new(), component: None, style: String::new() }
    }
}

/// API used by the language server to talk to the preview.
pub trait PreviewApi {
    fn set_use_external_previewer(&self, use_external: bool);

    fn set_contents(&self, path: &str, contents: &str);

    fn load_preview(&self, component: PreviewComponent);

    fn config_changed(&self, config: PreviewConfig);

    fn highlight(&self, path: Option<String>, offset: u32) -> Result<(), PreviewError>;

    /// The component currently previewed, if any.
    fn current_component(&self) -> Option<PreviewComponent>;
}

/// A message from the language server to the preview.
#[derive(Clone, Debug)]
pub enum LspToPreviewMessage {
    SetContents { path: String, contents: String },
    SetConfiguration { config: PreviewConfig },
    ShowPreview { path: String, component: Option<String>, style: String },
    HighlightFromEditor { path: Option<String>, offset: u32 },
}

/// A diagnostic the preview shows for a document.
#[derive(Clone, Debug)]
pub struct Diagnostic {
    pub message: String,
    pub file: Option<String>,
    pub line: usize,
    pub column: usize,
    pub level: String,
}

} // verus!
