use vstd::prelude::*;
use crate::platform::wayland::managers::registry_manager::DISPLAY_ID;
use crate::platform::wayland::wire::{
    le32, le32_at, message, push_le32, read_le32, read_string_arg, string_arg_readable,
    string_arg_text,
};

verus! {

/// `wl_surface.commit`.
pub open spec fn commit_message(surface_id: u32) -> Seq<u8> {
    message(surface_id, 8, 6, Seq::empty())
}

pub fn commit_request(surface_id: u32) -> (msg: Vec<u8>)
    ensures
        msg@ == commit_message(surface_id),
{
    let mut msg = Vec::new();
    push_le32(&mut msg, surface_id);
    push_le32(&mut msg, (8u32 << 16) | 6u32);
    assert(msg@ =~= commit_message(surface_id));
    msg
}

/// `wl_surface.damage_buffer`: the rectangle at (`x`, `y`), `width` by
/// `height` buffer pixels, has changed.
pub open spec fn damage_buffer_message(surface_id: u32, x: i32, y: i32, width: i32, height: i32) -> Seq<u8> {
    message(
        surface_id,
        24,
        9,
        le32(x as u32) + le32(y as u32) + le32(width as u32) + le32(height as u32),
    )
}

pub fn damage_buffer_request(surface_id: u32, x: i32, y: i32, width: i32, height: i32) -> (msg: Vec<u8>)
    ensures
        msg@ == damage_buffer_message(surface_id, x, y, width, height),
{
    let mut msg = Vec::new();
    push_le32(&mut msg, surface_id);
    push_le32(&mut msg, (24u32 << 16) | 9u32);
    push_le32(&mut msg, x as u32);
    push_le32(&mut msg, y as u32);
    push_le32(&mut msg, width as u32);
    push_le32(&mut msg, height as u32);
    assert(msg@ =~= damage_buffer_message(surface_id, x, y, width, height));
    msg
}

/// A `wl_display.error` event: the object at fault, the error code, and
/// the compositor's description.
pub struct DisplayError {
    pub object_id: u32,
    pub code: u32,
    pub message: String,
}

/// The arguments of a `wl_display.error` event can be read.
pub open spec fn error_args_readable(args: Seq<u8>) -> bool {
    string_arg_readable(args, 8)
}

/// Reads a `wl_display.error` event.
pub fn parse_display_error(args: &[u8]) -> (e: DisplayError)
    requires
        error_args_readable(args@),
    ensures
        e.object_id == le32_at(args@, 0),
        e.code == le32_at(args@, 4),
        e.message@ == string_arg_text(args@, 8),
{
    let object_id = read_le32(args, 0);
    let code = read_le32(args, 4);
    let message = read_string_arg(args, 8);
    DisplayError { object_id, code, message }
}

/// Whether the arguments of a `wl_display.error` event can be read.
pub fn error_args_well_formed(args: &[u8]) -> (ok: bool)
    ensures
        ok == error_args_readable(args@),
{
    let n = args.len();
    if n < 12 {
        return false;
    }
    let len = read_le32(args, 8) as usize;
    len >= 1 && len - 1 <= n - 12
}

/// What waiting for the first configure event does after an event.
pub enum ConfigureStep {
    /// Keep reading events.
    Continue,
    /// The xdg surface was configured; the serial to acknowledge.
    Configured(u32),
    /// The compositor reported a protocol error.
    Failed(DisplayError),
}

/// Handles one event while waiting for the first configure: a display
/// error fails, a configure of the xdg surface ends the wait with its
/// serial, and any other event is skipped.
pub fn handle_configure_event(xdg_surface_id: u32, object_id: u32, opcode: u16, args: &[u8]) -> (step: ConfigureStep)
    requires
        object_id == DISPLAY_ID && opcode == 0 ==> error_args_readable(args@),
        !(object_id == DISPLAY_ID && opcode == 0) && object_id == xdg_surface_id && opcode == 0
            ==> args@.len() >= 4,
    ensures
        object_id == DISPLAY_ID && opcode == 0 ==> (step matches ConfigureStep::Failed(e) && e.object_id
            == le32_at(args@, 0) && e.code == le32_at(args@, 4) && e.message@ == string_arg_text(
            args@,
            8,
        )),
        !(object_id == DISPLAY_ID && opcode == 0) && object_id == xdg_surface_id && opcode == 0
            ==> step == ConfigureStep::Configured(le32_at(args@, 0)),
        !(object_id == DISPLAY_ID && opcode == 0) && !(object_id == xdg_surface_id && opcode == 0)
            ==> step is Continue,
{
    if object_id == DISPLAY_ID && opcode == 0 {
        ConfigureStep::Failed(parse_display_error(args))
    } else if object_id == xdg_surface_id && opcode == 0 {
        ConfigureStep::Configured(read_le32(args, 0))
    } else {
        ConfigureStep::Continue
    }
}

/// The objects that the event loop listens to.
#[derive(Debug, Clone, Copy, PartialEq, Eq)]
pub struct LoopObjects {
    pub xdg_wm_base_id: u32,
    pub xdg_surface_id: u32,
    pub xdg_toplevel_id: u32,
}

/// What the event loop does after an event.
pub enum LoopAction {
    /// Nothing to answer; keep reading events.
    Continue,
    /// Answer the compositor's ping with this serial.
    Pong(u32),
    /// Acknowledge the configure with this serial, then commit.
    AckConfigure(u32),
    /// The user closed the window: leave the loop.
    Close,
    /// The compositor reported a protocol error: leave the loop with it.
    Failed(DisplayError),
}

/// Which argument sizes the event loop reads for an event.
pub open spec fn loop_args_readable(objects: LoopObjects, object_id: u32, opcode: u16, args: Seq<u8>) -> bool {
    if object_id == DISPLAY_ID && opcode == 0 {
        error_args_readable(args)
    } else if object_id == objects.xdg_wm_base_id && opcode == 0 {
        args.len() >= 4
    } else if object_id == objects.xdg_surface_id && opcode == 0 {
        args.len() >= 4
    } else {
        true
    }
}

/// Handles one event of the running window: a display error fails, a ping
/// of `xdg_wm_base` is answered with a pong, a configure of the xdg surface
/// is acknowledged, a close of the toplevel ends the loop, and any other
/// event is skipped. The tests are made in that order.
pub fn handle_loop_event(objects: LoopObjects, object_id: u32, opcode: u16, args: &[u8]) -> (action: LoopAction)
    requires
        loop_args_readable(objects, object_id, opcode, args@),
    ensures
        object_id == DISPLAY_ID && opcode == 0 ==> (action matches LoopAction::Failed(e) && e.object_id
            == le32_at(args@, 0) && e.code == le32_at(args@, 4) && e.message@ == string_arg_text(
            args@,
            8,
        )),
        !(object_id == DISPLAY_ID && opcode == 0) && object_id == objects.xdg_wm_base_id && opcode
            == 0 ==> action == LoopAction::Pong(le32_at(args@, 0)),
        !(object_id == DISPLAY_ID && opcode == 0) && !(object_id == objects.xdg_wm_base_id && opcode
            == 0) && object_id == objects.xdg_surface_id && opcode == 0 ==> action
            == LoopAction::AckConfigure(le32_at(args@, 0)),
        !(object_id == DISPLAY_ID && opcode == 0) && !(object_id == objects.xdg_wm_base_id && opcode
            == 0) && !(object_id == objects.xdg_surface_id && opcode == 0) ==> (action is Close
            <==> (object_id == objects.xdg_toplevel_id && opcode == 1)) && (!(action is Close)
            ==> action is Continue),
{
    if object_id == DISPLAY_ID && opcode == 0 {
        LoopAction::Failed(parse_display_error(args))
    } else if object_id == objects.xdg_wm_base_id && opcode == 0 {
        LoopAction::Pong(read_le32(args, 0))
    } else if object_id == objects.xdg_surface_id && opcode == 0 {
        LoopAction::AckConfigure(read_le32(args, 0))
    } else if object_id == objects.xdg_toplevel_id && opcode == 1 {
        LoopAction::Close
    } else {
        LoopAction::Continue
    }
}

} // verus!
