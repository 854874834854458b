use vstd::prelude::*;

verus! {

/// The shapes that the mouse cursor can take.
#[derive(Clone, Copy, Debug, PartialEq, Eq, Structural)]
pub enum CursorIcon {
    Default,
    Help,
    Pointer,
    Wait,
    Crosshair,
    Text,
    Move,
    NotAllowed,
    EWResize,
    NSResize,
    NESWResize,
    NWSEResize,
}

/// The mouse cursor that the application asked for.
#[derive(Clone, Copy, Debug, PartialEq, Eq, Structural)]
pub struct Cursor {
    pub icon: CursorIcon,
    pub show: bool,
}

/// What an application can ask of its window.
#[derive(Clone, Copy, Debug, PartialEq, Eq, Structural)]
pub enum Request {
    SetCursorGrab(bool),
    ShowMouse(bool),
    SetMouseCursor(CursorIcon),
    SetFullscreen(bool),
    /// Any request that has no counterpart on a web page.
    Other,
}

/// What the page is told to do.
#[derive(Clone, Copy, Debug)]
pub enum PageCommand {
    SetCursorGrab(bool),
    /// Use the cursor of this CSS name.
    SetCursor(&'static str),
    SetFullscreen(bool),
}

/// The CSS name of a cursor.
pub open spec fn css_name(cursor: Cursor) -> &'static str {
    if !cursor.show {
        "none"
    } else {
        match cursor.icon {
            CursorIcon::Default => "default",
            CursorIcon::Help => "help",
            CursorIcon::Pointer => "pointer",
            CursorIcon::Wait => "wait",
            CursorIcon::Crosshair => "crosshair",
            CursorIcon::Text => "text",
            CursorIcon::Move => "move",
            CursorIcon::NotAllowed => "not-allowed",
            CursorIcon::EWResize => "ew-resize",
            CursorIcon::NSResize => "ns-resize",
            CursorIcon::NESWResize => "nesw-resize",
            CursorIcon::NWSEResize => "nwse-resize",
        }
    }
}

/// The cursor of a page that has just been opened.
pub open spec fn first_cursor() -> Cursor {
    Cursor { icon: CursorIcon::Default, show: true }
}

impl Default for Cursor {
    fn default() -> (cursor: Self)
        ensures
            cursor == first_cursor(),
    {
        Cursor { icon: CursorIcon::Default, show: true }
    }
}

/// The command that shows the cursor on the page.
pub fn update_cursor(cursor: &Cursor) -> (command: PageCommand)
    ensures
        command == PageCommand::SetCursor(css_name(*cursor)),
{
    let css_name = if !cursor.show {
        "none"
    } else {
        match cursor.icon {
            CursorIcon::Default => "default",
            CursorIcon::Help => "help",
            CursorIcon::Pointer => "pointer",
            CursorIcon::Wait => "wait",
            CursorIcon::Crosshair => "crosshair",
            CursorIcon::Text => "text",
            CursorIcon::Move => "move",
            CursorIcon::NotAllowed => "not-allowed",
            CursorIcon::EWResize => "ew-resize",
            CursorIcon::NSResize => "ns-resize",
            CursorIcon::NESWResize => "nesw-resize",
            CursorIcon::NWSEResize => "nwse-resize",
        }
    };
    PageCommand::SetCursor(css_name)
}

/// Show or hide the cursor. The page is told only of a change.
pub fn show_mouse(cursor: &mut Cursor, shown: bool) -> (command: Option<PageCommand>)
    ensures
        *final(cursor) == (Cursor { show: shown, ..*old(cursor) }),
        command == if shown != old(cursor).show {
            Some(PageCommand::SetCursor(css_name(*final(cursor))))
        } else {
            None
        },
{
    if shown != cursor.show {
        cursor.show = shown;
        Some(update_cursor(cursor))
    } else {
        None
    }
}

/// Give the cursor another shape. The page is told only of a change that can be seen.
pub fn set_mouse_cursor(cursor: &mut Cursor, icon: CursorIcon) -> (command: Option<PageCommand>)
    ensures
        *final(cursor) == (Cursor { icon, ..*old(cursor) }),
        command == if icon != old(cursor).icon && old(cursor).show {
            Some(PageCommand::SetCursor(css_name(*final(cursor))))
        } else {
            None
        },
{
    if cursor.icon != icon {
        cursor.icon = icon;
        if cursor.show {
            Some(update_cursor(cursor))
        } else {
            None
        }
    } else {
        None
    }
}

/// The cursor after a request.
pub open spec fn cursor_after(cursor: Cursor, request: Request) -> Cursor {
    match request {
        Request::ShowMouse(show) => Cursor { show, ..cursor },
        Request::SetMouseCursor(icon) => Cursor { icon, ..cursor },
        _ => cursor,
    }
}

/// The command that a request leads to, if any.
pub open spec fn command_for(cursor: Cursor, request: Request) -> Option<PageCommand> {
    match request {
        Request::SetCursorGrab(grab) => Some(PageCommand::SetCursorGrab(grab)),
        Request::ShowMouse(show) => if show != cursor.show {
            Some(PageCommand::SetCursor(css_name(Cursor { show, ..cursor })))
        } else {
            None
        },
        Request::SetMouseCursor(icon) => if icon != cursor.icon && cursor.show {
            Some(PageCommand::SetCursor(css_name(Cursor { icon, ..cursor })))
        } else {
            None
        },
        Request::SetFullscreen(fullscreen) => Some(PageCommand::SetFullscreen(fullscreen)),
        Request::Other => None,
    }
}

/// Take up a request of the application.
pub fn handle_request(cursor: &mut Cursor, request: Request) -> (command: Option<PageCommand>)
    ensures
        *final(cursor) == cursor_after(*old(cursor), request),
        command == command_for(*old(cursor), request),
{
    match request {
        Request::SetCursorGrab(grab) => Some(PageCommand::SetCursorGrab(grab)),
        Request::ShowMouse(show) => show_mouse(cursor, show),
        Request::SetMouseCursor(icon) => set_mouse_cursor(cursor, icon),
        Request::SetFullscreen(fullscreen) => Some(PageCommand::SetFullscreen(fullscreen)),
        Request::Other => None,
    }
}

/// The CSS name that the page uses after a command, if it used `name` before.
pub open spec fn page_cursor(name: &'static str, command: Option<PageCommand>) -> &'static str {
    match command {
        Some(PageCommand::SetCursor(set)) => set,
        _ => name,
    }
}

/// A page that shows the right cursor still does so after any request and the command that comes
/// of it.
pub proof fn page_shows_the_cursor(cursor: Cursor, request: Request)
    ensures
        page_cursor(css_name(cursor), command_for(cursor, request)) == css_name(
            cursor_after(cursor, request),
        ),
{
}

/// The page is sent a cursor name only where that changes what it shows.
pub proof fn cursor_is_sent_only_on_change(cursor: Cursor, request: Request)
    ensures
        command_for(cursor, request) matches Some(PageCommand::SetCursor(name)) ==> name@
            != css_name(cursor)@,
{
    css_names_differ(cursor, cursor_after(cursor, request));
}

/// Two cursors have one CSS name only if both are hidden or they are the same.
pub proof fn css_names_differ(a: Cursor, b: Cursor)
    ensures
        css_name(a)@ == css_name(b)@ <==> a == b || !a.show && !b.show,
{
    reveal_strlit("none");
    reveal_strlit("default");
    reveal_strlit("help");
    reveal_strlit("pointer");
    reveal_strlit("wait");
    reveal_strlit("crosshair");
    reveal_strlit("text");
    reveal_strlit("move");
    reveal_strlit("not-allowed");
    reveal_strlit("ew-resize");
    reveal_strlit("ns-resize");
    reveal_strlit("nesw-resize");
    reveal_strlit("nwse-resize");
    let x = css_name(a)@;
    let y = css_name(b)@;
    assert(x == y ==> x.len() == y.len() && x[0] == y[0] && x[1] == y[1]);
}

/// Hiding the cursor and showing it again brings back the page's cursor name.
pub proof fn hide_then_show_restores(cursor: Cursor)
    requires
        cursor.show,
    ensures
        cursor_after(cursor_after(cursor, Request::ShowMouse(false)), Request::ShowMouse(true))
            == cursor,
        command_for(cursor, Request::ShowMouse(false)) == Some(PageCommand::SetCursor("none")),
        command_for(cursor_after(cursor, Request::ShowMouse(false)), Request::ShowMouse(true))
            == Some(PageCommand::SetCursor(css_name(cursor))),
{
}

} // verus!
