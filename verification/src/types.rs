use vstd::prelude::*;

verus! {

/// The keyboard layout that the target session expects.
#[derive(Clone, Copy, Debug, PartialEq, Eq, Structural)]
pub enum KeyboardLayout {
    Norwegian,
    Us,
}

/// One line of the system readiness report.
#[derive(Clone, Debug)]
pub struct SystemCheckItem {
    /// What was checked.
    pub title: String,
    /// Whether the check passed.
    pub ok: bool,
    /// What was found, or how to fix it.
    pub detail: String,
    /// What the check is about, shown on request.
    pub help: String,
}

/// The system readiness report.
#[derive(Clone, Debug)]
pub struct SystemCheck {
    /// The individual checks, in the order they are shown.
    pub items: Vec<SystemCheckItem>,
    /// Whether keystrokes can be sent.
    pub can_type: bool,
    /// Whether clipboard images can be read as text.
    pub can_ocr: bool,
}

/// A message from a background job to the window.
#[derive(Debug)]
pub enum UiEvent {
    /// A new status line.
    Status(String),
    /// Typing progress.
    Progress { done: usize, total: usize, status: String },
    /// Typing has ended, completely or not.
    Finished { status: String, done: usize, total: usize },
    /// Text recognition has ended; the recognised text, if any.
    OcrFinished { status: String, text: Option<String> },
    /// The system readiness report is ready.
    SystemCheckFinished(SystemCheck),
}

} // verus!
