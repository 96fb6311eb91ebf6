//! Presentation-control data model.
//!
//! The platform automation itself (COM, AppleScript, UNO) runs outside the
//! library; these are the typed values it exchanges with callers, and the
//! marker types of the macOS controllers.

use vstd::prelude::*;

verus! {

/// Supported presentation applications.
#[derive(Debug, Clone, PartialEq, Eq, Structural)]
pub enum PresentationApp {
    PowerPoint,
    Keynote,
    Impress,
}

impl PresentationApp {
    /// The application's display name.
    pub fn label(&self) -> (r: &'static str)
        ensures
            self is PowerPoint ==> r@ == "PowerPoint"@,
            self is Keynote ==> r@ == "Keynote"@,
            self is Impress ==> r@ == "Impress"@,
    {
        match self {
            PresentationApp::PowerPoint => "PowerPoint",
            PresentationApp::Keynote => "Keynote",
            PresentationApp::Impress => "Impress",
        }
    }
}

/// Current presentation status, as the automation layer reports it.
#[derive(Debug, Clone)]
pub struct PresentationStatus {
    pub app: PresentationApp,
    pub app_running: bool,
    pub slideshow_active: bool,
    pub current_slide: Option<u32>,
    pub total_slides: Option<u32>,
    pub current_slide_title: Option<String>,
    pub blanked: bool,
}

/// Failure modes of presentation control.
#[derive(Debug, Clone)]
pub enum PresentationError {
    /// The target application is not running.
    AppNotRunning(String),
    /// No presentation is currently open.
    NoPresentationOpen,
    /// No slideshow is currently active.
    NoSlideshowActive,
    /// The file was not found.
    FileNotFound(String),
    /// Platform automation failed.
    AutomationError(String),
    /// The platform does not support this operation.
    PlatformNotSupported(String),
}

impl PresentationError {
    /// A short human-readable description of the error.
    pub fn message(&self) -> (r: String)
        ensures
            self matches PresentationError::AppNotRunning(a) ==> r@ == a@ + " is not running"@,
            self is NoPresentationOpen ==> r@ == "No presentation is open"@,
            self is NoSlideshowActive ==> r@ == "No slideshow is active"@,
            self matches PresentationError::FileNotFound(p) ==> r@ == "File not found: "@ + p@,
            self matches PresentationError::AutomationError(m) ==> r@ == "Automation error: "@
                + m@,
            self matches PresentationError::PlatformNotSupported(m) ==> r@
                == "Platform not supported: "@ + m@,
    {
        match self {
            PresentationError::AppNotRunning(app) => {
                let mut r = app.clone();
                r.append(" is not running");
                r
            },
            PresentationError::NoPresentationOpen => "No presentation is open".to_owned(),
            PresentationError::NoSlideshowActive => "No slideshow is active".to_owned(),
            PresentationError::FileNotFound(path) => {
                let mut r = "File not found: ".to_owned();
                r.append(path.as_str());
                r
            },
            PresentationError::AutomationError(msg) => {
                let mut r = "Automation error: ".to_owned();
                r.append(msg.as_str());
                r
            },
            PresentationError::PlatformNotSupported(msg) => {
                let mut r = "Platform not supported: ".to_owned();
                r.append(msg.as_str());
                r
            },
        }
    }
}

/// Marker for the macOS Keynote controller; the AppleScript automation runs
/// in the application layer.
pub struct MacosKeynoteController;

impl MacosKeynoteController {
    pub fn new() -> Self {
        MacosKeynoteController
    }
}

/// Marker for the macOS PowerPoint controller; the AppleScript automation
/// runs in the application layer.
pub struct MacosPowerPointController;

impl MacosPowerPointController {
    pub fn new() -> Self {
        MacosPowerPointController
    }
}

} // verus!
