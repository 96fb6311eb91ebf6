//! Tests of the caller-facing API types: the Companion client, the selector
//! layout and the presentation error texts.

use remote_bridge::companion::{
    selector_buttons, CompanionApi, CreatePptPageRequest, PptSelectorLayout,
    DEFAULT_COMPANION_PORT,
};
use remote_bridge::presentation::{
    MacosKeynoteController, MacosPowerPointController, PresentationApp, PresentationError,
};

#[test]
fn companion_base_url() {
    let api = CompanionApi::new("10.0.0.5", 8000);
    assert_eq!(api.base_url, "http://10.0.0.5:8000");
    let api = CompanionApi::new("localhost", 80);
    assert_eq!(api.base_url, "http://localhost:80");
    let api = CompanionApi::new("h", 0);
    assert_eq!(api.base_url, "http://h:0");
}

#[test]
fn layout_defaults() {
    assert_eq!(PptSelectorLayout::default().page, 1);
    let r = CreatePptPageRequest::default();
    assert_eq!(r.host, "127.0.0.1");
    assert_eq!(r.port, DEFAULT_COMPANION_PORT);
    assert_eq!(r.page, 1);
}

#[test]
fn selector_grid_has_four_rows_of_five() {
    let buttons = selector_buttons();
    assert_eq!(buttons.len(), 20);
    for (i, b) in buttons.iter().enumerate() {
        assert_eq!(b.row as usize, i / 5);
        assert_eq!(b.column as usize, i % 5);
        assert_eq!(b.style.color, 0xFFFFFF);
    }
    // Digit rows: 1-5 then 6-9 and 0, blue.
    assert_eq!(buttons[0].style.text, "1");
    assert_eq!(buttons[9].style.text, "0");
    assert_eq!(buttons[0].style.bgcolor, 0x3B82F6);
    assert_eq!(buttons[0].style.size, "44");
    // Control row.
    assert_eq!(buttons[10].style.text, "⌫");
    assert_eq!(buttons[10].style.bgcolor, 0xEF4444);
    assert_eq!(buttons[11].style.text, "CLR");
    assert_eq!(buttons[11].style.size, "18");
    assert_eq!(buttons[13].style.text, "Filter");
    assert_eq!(buttons[14].style.text, "Files");
    // Slot row, green.
    assert_eq!(buttons[15].style.text, "Slot 1");
    assert_eq!(buttons[19].style.text, "Slot 5");
    assert_eq!(buttons[19].style.bgcolor, 0x009600);
}

#[test]
fn presentation_error_messages() {
    let e = PresentationError::AppNotRunning("Keynote".to_string());
    assert_eq!(e.message(), "Keynote is not running");
    assert_eq!(PresentationError::NoPresentationOpen.message(), "No presentation is open");
    assert_eq!(PresentationError::NoSlideshowActive.message(), "No slideshow is active");
    let e = PresentationError::FileNotFound("/tmp/deck.key".to_string());
    assert_eq!(e.message(), "File not found: /tmp/deck.key");
    let e = PresentationError::AutomationError("script failed".to_string());
    assert_eq!(e.message(), "Automation error: script failed");
    let e = PresentationError::PlatformNotSupported("no app".to_string());
    assert_eq!(e.message(), "Platform not supported: no app");
}

#[test]
fn presentation_app_labels() {
    assert_eq!(PresentationApp::PowerPoint.label(), "PowerPoint");
    assert_eq!(PresentationApp::Keynote.label(), "Keynote");
    assert_eq!(PresentationApp::Impress.label(), "Impress");
    assert!(PresentationApp::Keynote == PresentationApp::Keynote);
    assert!(PresentationApp::Keynote != PresentationApp::Impress);
}

#[test]
fn controller_markers_construct() {
    let _ = MacosKeynoteController::new();
    let _ = MacosPowerPointController::new();
}
