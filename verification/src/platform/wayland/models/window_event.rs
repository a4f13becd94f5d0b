use vstd::prelude::*;
use crate::platform::wayland::wire::{le32_at, read_le32};

verus! {

/// What the window reports to the platform.
#[derive(Debug, Clone, Copy, PartialEq, Eq)]
pub enum WindowEvent {
    /// The compositor asked the window to close.
    WindowClose,
    /// The compositor proposed a new size: width, then height.
    WindowResize(i32, i32),
}

/// The event, if any, that a message from the compositor means for the
/// window whose toplevel is `toplevel_id`: `close` (opcode 1) closes it,
/// `configure` (opcode 0) proposes the width and height held in its first
/// two arguments, and every other message means nothing to the window.
pub open spec fn window_event_of(toplevel_id: u32, object_id: u32, opcode: u16, args: Seq<u8>) -> Option<WindowEvent> {
    if object_id == toplevel_id && opcode == 1 {
        Some(WindowEvent::WindowClose)
    } else if object_id == toplevel_id && opcode == 0 {
        Some(WindowEvent::WindowResize(le32_at(args, 0) as i32, le32_at(args, 4) as i32))
    } else {
        None
    }
}

/// Turns a message from the compositor into a window event.
pub fn decode_window_event(toplevel_id: u32, object_id: u32, opcode: u16, args: &[u8]) -> (event: Option<WindowEvent>)
    requires
        object_id == toplevel_id && opcode == 0 ==> args@.len() >= 8,
    ensures
        event == window_event_of(toplevel_id, object_id, opcode, args@),
        object_id != toplevel_id ==> event is None,
        event == Some(WindowEvent::WindowClose) <==> (object_id == toplevel_id && opcode == 1),
{
    if object_id == toplevel_id && opcode == 1 {
        return Some(WindowEvent::WindowClose);
    }
    if object_id == toplevel_id && opcode == 0 {
        let new_width = read_le32(args, 0) as i32;
        let new_height = read_le32(args, 4) as i32;
        return Some(WindowEvent::WindowResize(new_width, new_height));
    }
    None
}

/// Only the toplevel speaks for the window: a message from any other
/// object (the display's `delete_id`, a surface's `leave`, ...) means no
/// window event, whatever its opcode; the window closes exactly on the
/// toplevel's `close` (opcode 1), and resizes only on its `configure`
/// (opcode 0), to the width and height that message carries.
pub proof fn law_window_events_come_from_the_toplevel(
    toplevel_id: u32,
    object_id: u32,
    opcode: u16,
    args: Seq<u8>,
)
    ensures
        object_id != toplevel_id ==> window_event_of(toplevel_id, object_id, opcode, args) is None,
        window_event_of(toplevel_id, object_id, opcode, args) == Some(WindowEvent::WindowClose)
            <==> (object_id == toplevel_id && opcode == 1),
        window_event_of(toplevel_id, object_id, opcode, args) matches Some(
            WindowEvent::WindowResize(_, _),
        ) <==> (object_id == toplevel_id && opcode == 0),
        object_id == toplevel_id && opcode == 0 ==> window_event_of(
            toplevel_id,
            object_id,
            opcode,
            args,
        ) == Some(WindowEvent::WindowResize(le32_at(args, 0) as i32, le32_at(args, 4) as i32)),
        opcode > 1 ==> window_event_of(toplevel_id, object_id, opcode, args) is None,
{
}

} // verus!
