//! Discovery of the compositor's globals: the requests that start it, the
//! handling of each event it answers with, and the lookup by interface name.
use vstd::prelude::*;
use crate::platform::wayland::models::registry::{GlobalEntry, WaylandGlobal, WaylandRegistry};
use crate::platform::wayland::wire::{
    le32, le32_at, lemma_round_up4, message, pad4, push_le32, read_le32, read_string_arg,
    string_arg_len, string_arg_readable, string_arg_text,
};

verus! {

/// The id of the display object, which exists from the start.
pub const DISPLAY_ID: u32 = 1;

/// The id given to the registry by `wl_display.get_registry`.
pub const REGISTRY_ID: u32 = 2;

/// The id given to the callback of the `wl_display.sync` sent after it.
pub const SYNC_CALLBACK_ID: u32 = 3;

/// Whether two strings hold the same text; compared byte by byte.
pub fn str_eq(a: &str, b: &str) -> (same: bool)
    ensures
        same == (a@ == b@),
{
    let ab = a.as_bytes();
    let bb = b.as_bytes();
    proof {
        vstd::utf8::encode_utf8_decode_utf8(a@);
        vstd::utf8::encode_utf8_decode_utf8(b@);
    }
    if ab.len() != bb.len() {
        return false;
    }
    let mut i: usize = 0;
    while i < ab.len()
        invariant
            ab@ == vstd::utf8::encode_utf8(a@),
            bb@ == vstd::utf8::encode_utf8(b@),
            ab@.len() == bb@.len(),
            i <= ab@.len(),
            forall|j: int| 0 <= j < i ==> ab@[j] == bb@[j],
        decreases ab@.len() - i,
    {
        if ab[i] != bb[i] {
            proof {
                if a@ == b@ {
                    assert(ab@ == vstd::utf8::encode_utf8(a@));
                    assert(bb@ == vstd::utf8::encode_utf8(b@));
                    assert(ab@ == bb@);
                }
            }
            return false;
        }
        i = i + 1;
    }
    assert(ab@ =~= bb@);
    true
}

/// The id of the first global, in announcement order, whose interface is
/// `interface`; `None` when no global offers it.
pub open spec fn spec_find_global(globals: Seq<GlobalEntry>, interface: Seq<char>) -> Option<u32>
    decreases globals.len(),
{
    if globals.len() == 0 {
        None
    } else if globals[0].name == interface {
        Some(globals[0].id)
    } else {
        spec_find_global(globals.drop_first(), interface)
    }
}

/// Finds the id under which `interface` was announced; the first one wins.
pub fn find_global(registry: &WaylandRegistry, interface: &str) -> (found: Option<u32>)
    ensures
        found == spec_find_global(registry@, interface@),
{
    let globals = registry.get_globals();
    let mut i: usize = 0;
    assert(registry@.skip(0) =~= registry@);
    while i < globals.len()
        invariant
            globals@.len() == registry@.len(),
            forall|j: int| 0 <= j < globals@.len() ==> #[trigger] globals@[j]@ == registry@[j],
            i <= globals@.len(),
            spec_find_global(registry@, interface@) == spec_find_global(
                registry@.skip(i as int),
                interface@,
            ),
        decreases globals@.len() - i,
    {
        let global = &globals[i];
        let ghost rest = registry@.skip(i as int);
        assert(rest[0] == registry@[i as int]);
        if str_eq(global.name(), interface) {
            return Some(global.id());
        }
        assert(rest.drop_first() =~= registry@.skip(i + 1));
        i = i + 1;
    }
    None
}

/// `wl_display.get_registry`, creating the registry object.
pub open spec fn get_registry_message() -> Seq<u8> {
    message(DISPLAY_ID, 12, 1, le32(REGISTRY_ID))
}

/// `wl_display.sync`, whose callback fires once every global is announced.
pub open spec fn sync_message() -> Seq<u8> {
    message(DISPLAY_ID, 12, 0, le32(SYNC_CALLBACK_ID))
}

pub fn get_registry_request() -> (msg: Vec<u8>)
    ensures
        msg@ == get_registry_message(),
{
    let mut msg = Vec::new();
    push_le32(&mut msg, DISPLAY_ID);
    push_le32(&mut msg, (12u32 << 16) | 1u32);
    push_le32(&mut msg, REGISTRY_ID);
    msg
}

pub fn sync_request() -> (msg: Vec<u8>)
    ensures
        msg@ == sync_message(),
{
    let mut msg = Vec::new();
    push_le32(&mut msg, DISPLAY_ID);
    push_le32(&mut msg, (12u32 << 16) | 0u32);
    push_le32(&mut msg, SYNC_CALLBACK_ID);
    msg
}

/// The byte offset of the version in the arguments of a `wl_registry.global`
/// event: after the numeric name and the padded interface string.
pub open spec fn global_version_offset(args: Seq<u8>) -> int {
    8 + pad4(string_arg_len(args, 4)) as int
}

/// The arguments of a `wl_registry.global` event can be read: the name, the
/// interface string and the version all lie within them.
pub open spec fn global_args_readable(args: Seq<u8>) -> bool {
    &&& string_arg_readable(args, 4)
    &&& string_arg_len(args, 4) + 3 <= usize::MAX
    &&& global_version_offset(args) + 4 <= args.len()
}

/// The global that a `wl_registry.global` event announces.
pub open spec fn announced_global(args: Seq<u8>) -> GlobalEntry {
    GlobalEntry {
        name: string_arg_text(args, 4),
        version: le32_at(args, global_version_offset(args)),
        id: le32_at(args, 0),
    }
}

/// Whether the arguments of a `wl_registry.global` event can be read.
pub fn global_args_well_formed(args: &[u8]) -> (ok: bool)
    ensures
        ok == global_args_readable(args@),
{
    let n = args.len();
    if n < 8 {
        return false;
    }
    let name_len = read_le32(args, 4) as usize;
    if name_len < 1 || name_len - 1 > n - 8 {
        return false;
    }
    if name_len > usize::MAX - 3 {
        return false;
    }
    let padded = (name_len + 3) & !3;
    proof {
        lemma_round_up4(name_len);
    }
    padded <= n - 8 && 4 <= n - 8 - padded
}

/// Reads the global that a `wl_registry.global` event announces.
pub fn parse_global(args: &[u8]) -> (global: WaylandGlobal)
    requires
        global_args_readable(args@),
    ensures
        global@ == announced_global(args@),
{
    let n = args.len();
    let global_id = read_le32(args, 0);
    let name_len = read_le32(args, 4) as usize;
    let name = read_string_arg(args, 4);
    let name_padded = (name_len + 3) & !3;
    proof {
        lemma_round_up4(name_len);
        assert(name_len == string_arg_len(args@, 4));
        assert(name_padded == pad4(string_arg_len(args@, 4)));
    }
    let version_offset = 8 + name_padded;
    let version = read_le32(args, version_offset);
    WaylandGlobal::new(name.as_str(), version, global_id)
}

/// What discovery does after an event.
#[derive(Debug, Clone, Copy, PartialEq, Eq)]
pub enum RegistryStep {
    /// Keep reading events.
    Continue,
    /// The sync callback fired: every global has been announced.
    Done,
}

/// Handles one event during discovery: a `wl_registry.global` event adds
/// the global it announces; the `done` event of the sync callback ends
/// discovery; any other event is skipped.
pub fn handle_registry_event(registry: &mut WaylandRegistry, object_id: u32, opcode: u16, args: &[u8]) -> (step: RegistryStep)
    requires
        object_id == REGISTRY_ID && opcode == 0 ==> global_args_readable(args@),
    ensures
        object_id == REGISTRY_ID && opcode == 0 ==> {
            &&& final(registry)@ == old(registry)@.push(announced_global(args@))
            &&& step == RegistryStep::Continue
        },
        object_id == SYNC_CALLBACK_ID && opcode == 0 ==> {
            &&& final(registry)@ == old(registry)@
            &&& step == RegistryStep::Done
        },
        !(object_id == REGISTRY_ID && opcode == 0) && !(object_id == SYNC_CALLBACK_ID && opcode
            == 0) ==> {
            &&& final(registry)@ == old(registry)@
            &&& step == RegistryStep::Continue
        },
{
    if object_id == REGISTRY_ID && opcode == 0 {
        let global = parse_global(args);
        registry.add_global(global);
        RegistryStep::Continue
    } else if object_id == SYNC_CALLBACK_ID && opcode == 0 {
        RegistryStep::Done
    } else {
        RegistryStep::Continue
    }
}

} // verus!
