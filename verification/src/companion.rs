//! Companion control-surface client types and the selector-page layout.
//!
//! The HTTP calls themselves live in the surrounding application; the
//! library pins down the client's address string and the exact grid of
//! buttons that the selector page is built from.

use vstd::prelude::*;
use crate::strutil::{dec_str_spec, u16_dec_string};

verus! {

/// Default port of the Companion HTTP API.
pub const DEFAULT_COMPANION_PORT: u16 = 8000;

/// Companion API client: the base URL every request is built on.
pub struct CompanionApi {
    pub base_url: String,
}

impl CompanionApi {
    /// Builds the client for `host` and `port`; the base URL is exactly
    /// `http://<host>:<port>`.
    pub fn new(host: &str, port: u16) -> (api: Self)
        ensures
            api.base_url@ == "http://"@ + host@ + ":"@ + dec_str_spec(port as int),
    {
        let mut url = "http://".to_owned();
        url.append(host);
        url.append(":");
        let port_str = u16_dec_string(port);
        url.append(port_str.as_str());
        CompanionApi { base_url: url }
    }
}

/// Style of one button: its text, text size, and foreground and background
/// colors.
#[derive(Debug, Clone)]
pub struct ButtonStyle {
    pub text: String,
    pub size: String,
    pub color: u32,
    pub bgcolor: u32,
}

/// Layout configuration of the selector page: which page the buttons go on.
pub struct PptSelectorLayout {
    pub page: u32,
}

impl Default for PptSelectorLayout {
    /// The selector page defaults to page 1.
    fn default() -> (r: Self)
        ensures
            r.page == 1,
    {
        PptSelectorLayout { page: 1 }
    }
}

/// Whether Companion is reachable, and where it was looked for.
#[derive(Debug, Clone)]
pub struct CompanionStatus {
    pub available: bool,
    pub host: String,
    pub port: u16,
    pub error: Option<String>,
}

/// Request to create the selector page.
#[derive(Debug, Clone)]
pub struct CreatePptPageRequest {
    pub host: String,
    pub port: u16,
    pub page: u32,
}

impl Default for CreatePptPageRequest {
    /// The request defaults to the local Companion on its default port,
    /// page 1.
    fn default() -> (r: Self)
        ensures
            r.host@ == "127.0.0.1"@,
            r.port == DEFAULT_COMPANION_PORT,
            r.page == 1,
    {
        CreatePptPageRequest { host: "127.0.0.1".to_owned(), port: DEFAULT_COMPANION_PORT, page: 1 }
    }
}

/// One button of the selector page: grid position and style; the page
/// number comes from the layout.
#[derive(Debug, Clone)]
pub struct ButtonPlacement {
    pub row: u32,
    pub column: u32,
    pub style: ButtonStyle,
}

/// The text of selector button `i`: two rows of digits, a row of control
/// buttons, and a row of slot buttons.
pub open spec fn selector_button_text(i: int) -> Seq<char> {
    if i == 0 {
        "1"@
    } else if i == 1 {
        "2"@
    } else if i == 2 {
        "3"@
    } else if i == 3 {
        "4"@
    } else if i == 4 {
        "5"@
    } else if i == 5 {
        "6"@
    } else if i == 6 {
        "7"@
    } else if i == 7 {
        "8"@
    } else if i == 8 {
        "9"@
    } else if i == 9 {
        "0"@
    } else if i == 10 {
        "⌫"@
    } else if i == 11 {
        "CLR"@
    } else if i == 12 {
        "↻"@
    } else if i == 13 {
        "Filter"@
    } else if i == 14 {
        "Files"@
    } else if i == 15 {
        "Slot 1"@
    } else if i == 16 {
        "Slot 2"@
    } else if i == 17 {
        "Slot 3"@
    } else if i == 18 {
        "Slot 4"@
    } else {
        "Slot 5"@
    }
}

/// The text size of selector button `i`.
pub open spec fn selector_button_size(i: int) -> Seq<char> {
    if i < 10 || i == 10 || i == 12 {
        "44"@
    } else if i == 11 {
        "18"@
    } else {
        "14"@
    }
}

/// The background color of selector button `i`: blue digits, red backspace,
/// amber clear, gray refresh, dark filter and files, green slots.
pub open spec fn selector_button_bg(i: int) -> u32 {
    if i < 10 {
        0x3B82F6
    } else if i == 10 {
        0xEF4444
    } else if i == 11 {
        0xF59E0B
    } else if i == 12 {
        0x6B7280
    } else if i == 13 || i == 14 {
        0x323232
    } else {
        0x009600
    }
}

/// The full selector-page grid, top to bottom and left to right: twenty
/// buttons, five per row, each with the exact text, size and colors the page
/// is built from. The caller posts one style request per entry.
pub fn selector_buttons() -> (r: Vec<ButtonPlacement>)
    ensures
        r@.len() == 20,
        forall|i: int|
            0 <= i < 20 ==> {
                &&& (#[trigger] r@[i]).row == i / 5
                &&& r@[i].column == i % 5
                &&& r@[i].style.text@ == selector_button_text(i)
                &&& r@[i].style.size@ == selector_button_size(i)
                &&& r@[i].style.color == 0xFFFFFFu32
                &&& r@[i].style.bgcolor == selector_button_bg(i)
            },
{
    let mut r: Vec<ButtonPlacement> = Vec::new();
    r.push(button(0, 0, "1", "44", 0x3B82F6));
    r.push(button(0, 1, "2", "44", 0x3B82F6));
    r.push(button(0, 2, "3", "44", 0x3B82F6));
    r.push(button(0, 3, "4", "44", 0x3B82F6));
    r.push(button(0, 4, "5", "44", 0x3B82F6));
    r.push(button(1, 0, "6", "44", 0x3B82F6));
    r.push(button(1, 1, "7", "44", 0x3B82F6));
    r.push(button(1, 2, "8", "44", 0x3B82F6));
    r.push(button(1, 3, "9", "44", 0x3B82F6));
    r.push(button(1, 4, "0", "44", 0x3B82F6));
    r.push(button(2, 0, "⌫", "44", 0xEF4444));
    r.push(button(2, 1, "CLR", "18", 0xF59E0B));
    r.push(button(2, 2, "↻", "44", 0x6B7280));
    r.push(button(2, 3, "Filter", "14", 0x323232));
    r.push(button(2, 4, "Files", "14", 0x323232));
    r.push(button(3, 0, "Slot 1", "14", 0x009600));
    r.push(button(3, 1, "Slot 2", "14", 0x009600));
    r.push(button(3, 2, "Slot 3", "14", 0x009600));
    r.push(button(3, 3, "Slot 4", "14", 0x009600));
    r.push(button(3, 4, "Slot 5", "14", 0x009600));
    r
}

/// One white-on-color button at a grid position.
fn button(row: u32, column: u32, text: &str, size: &str, bgcolor: u32) -> (r: ButtonPlacement)
    ensures
        r.row == row,
        r.column == column,
        r.style.text@ == text@,
        r.style.size@ == size@,
        r.style.color == 0xFFFFFFu32,
        r.style.bgcolor == bgcolor,
{
    ButtonPlacement {
        row,
        column,
        style: ButtonStyle {
            text: text.to_owned(),
            size: size.to_owned(),
            color: 0xFFFFFF,
            bgcolor,
        },
    }
}

} // verus!
