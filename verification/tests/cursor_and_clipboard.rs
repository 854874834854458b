use wasm_stage::clipboard::{c_string, on_clipboard_paste, panic_message, Clipboard};
use wasm_stage::cursor::{
    handle_request, set_mouse_cursor, show_mouse, update_cursor, Cursor, CursorIcon, PageCommand,
    Request,
};

fn name(command: Option<PageCommand>) -> Option<&'static str> {
    match command {
        Some(PageCommand::SetCursor(name)) => Some(name),
        Some(_) => panic!("not a cursor"),
        None => None,
    }
}

#[test]
fn every_icon_has_its_css_name() {
    let names = [
        (CursorIcon::Default, "default"),
        (CursorIcon::Help, "help"),
        (CursorIcon::Pointer, "pointer"),
        (CursorIcon::Wait, "wait"),
        (CursorIcon::Crosshair, "crosshair"),
        (CursorIcon::Text, "text"),
        (CursorIcon::Move, "move"),
        (CursorIcon::NotAllowed, "not-allowed"),
        (CursorIcon::EWResize, "ew-resize"),
        (CursorIcon::NSResize, "ns-resize"),
        (CursorIcon::NESWResize, "nesw-resize"),
        (CursorIcon::NWSEResize, "nwse-resize"),
    ];
    for (icon, css) in names {
        assert_eq!(name(Some(update_cursor(&Cursor { icon, show: true }))), Some(css));
        assert_eq!(name(Some(update_cursor(&Cursor { icon, show: false }))), Some("none"));
    }
}

#[test]
fn the_cursor_is_sent_only_on_a_visible_change() {
    let mut cursor = Cursor::default();
    assert_eq!(cursor, Cursor { icon: CursorIcon::Default, show: true });
    assert_eq!(name(show_mouse(&mut cursor, true)), None);
    assert_eq!(name(set_mouse_cursor(&mut cursor, CursorIcon::Default)), None);
    assert_eq!(name(set_mouse_cursor(&mut cursor, CursorIcon::Wait)), Some("wait"));
    assert_eq!(name(show_mouse(&mut cursor, false)), Some("none"));
    assert_eq!(name(show_mouse(&mut cursor, false)), None);
    assert_eq!(name(set_mouse_cursor(&mut cursor, CursorIcon::Move)), None);
    assert_eq!(cursor, Cursor { icon: CursorIcon::Move, show: false });
    assert_eq!(name(show_mouse(&mut cursor, true)), Some("move"));
}

#[test]
fn the_page_keeps_showing_the_cursor() {
    let requests = [
        Request::SetMouseCursor(CursorIcon::Pointer),
        Request::ShowMouse(false),
        Request::SetMouseCursor(CursorIcon::NESWResize),
        Request::SetCursorGrab(true),
        Request::ShowMouse(true),
        Request::Other,
        Request::SetFullscreen(true),
        Request::ShowMouse(false),
    ];
    let mut cursor = Cursor::default();
    let mut shown = "default";
    for request in requests {
        if let Some(PageCommand::SetCursor(name)) = handle_request(&mut cursor, request) {
            assert_ne!(name, shown);
            shown = name;
        }
        assert_eq!(name(Some(update_cursor(&cursor))), Some(shown));
    }
}

#[test]
fn requests_without_a_cursor() {
    let mut cursor = Cursor::default();
    let grab = handle_request(&mut cursor, Request::SetCursorGrab(false));
    assert!(matches!(grab, Some(PageCommand::SetCursorGrab(false))));
    let full = handle_request(&mut cursor, Request::SetFullscreen(true));
    assert!(matches!(full, Some(PageCommand::SetFullscreen(true))));
    assert!(handle_request(&mut cursor, Request::Other).is_none());
    assert_eq!(cursor, Cursor::default());
}

#[test]
fn the_clipboard_holds_what_was_pasted_last() {
    let mut clipboard = Clipboard::new();
    assert_eq!(clipboard.get(), None);
    on_clipboard_paste(&mut clipboard, "one".to_string());
    on_clipboard_paste(&mut clipboard, "zw\u{f6}lf".to_string());
    assert_eq!(clipboard.get(), Some("zw\u{f6}lf".to_string()));
    clipboard.set("three");
    assert_eq!(clipboard.get(), Some("zw\u{f6}lf".to_string()));
}

#[test]
fn the_page_is_given_a_c_string_and_its_length() {
    let mut clipboard = Clipboard::new();
    assert_eq!(clipboard.set("h\u{e9}"), (vec![b'h', 0xC3, 0xA9, 0], 3));
    assert_eq!(clipboard.set(""), (vec![0], 0));
    assert_eq!(clipboard.get(), None);
}

#[test]
fn a_text_with_a_zero_byte_has_no_c_string() {
    assert_eq!(c_string("ab"), Some(vec![b'a', b'b', 0]));
    assert_eq!(c_string("a\0b"), None);
    assert_eq!(c_string("\0"), None);
}

#[test]
fn panic_messages() {
    assert_eq!(panic_message("oops", "here"), b"oops\0".to_vec());
    assert_eq!(
        panic_message("oo\0ps", "Some(here)"),
        b"MALFORMED ERROR MESSAGE Some(here)\0".to_vec()
    );
}
