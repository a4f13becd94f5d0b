use vstd::prelude::*;
use vstd::string::StringSliceAdditionalSpecFns;
use vstd::utf8::encode_utf8;
use crate::platform::wayland::managers::registry_manager::{
    REGISTRY_ID, announced_global, global_args_readable,
};
use crate::platform::wayland::wire::{
    le32, le32_at, lemma_le32_roundtrip, lemma_string_arg_roundtrip, message, pad4, push_le32,
    push_string_arg, string_arg, string_arg_len, well_formed_message, law_message_well_formed,
};

verus! {

/// The arguments of `wl_registry.bind`: the numeric name of the global, the
/// interface as a string, the version, and the new id.
pub open spec fn bind_args(name: u32, interface: Seq<u8>, version: u32, new_id: u32) -> Seq<u8> {
    le32(name) + string_arg(interface) + le32(version) + le32(new_id)
}

/// `wl_registry.bind`. The size in the header is the message length
/// truncated to 32 bits and shifted into the upper half of the word.
pub open spec fn bind_message(name: u32, interface: Seq<u8>, version: u32, new_id: u32) -> Seq<u8> {
    message(
        REGISTRY_ID,
        (8 + bind_args(name, interface, version, new_id).len()) as u32,
        0,
        bind_args(name, interface, version, new_id),
    )
}

/// Builds `wl_registry.bind` for the global announced as `name`, binding
/// `interface` at `version` under `new_id`. A length that is one short of
/// `u32::MAX` (truncated to 32 bits) would overflow the length word.
pub fn bind_global_request(name: u32, interface: &str, version: u32, new_id: u32) -> (msg: Vec<u8>)
    requires
        (interface.spec_bytes().len() as u32) < u32::MAX,
        interface.spec_bytes().len() + 32 <= usize::MAX,
    ensures
        msg@ == bind_message(name, interface.spec_bytes(), version, new_id),
{
    let bytes = interface.as_bytes();
    let mut msg = Vec::new();
    push_le32(&mut msg, REGISTRY_ID);
    let mut arg = Vec::new();
    push_le32(&mut arg, name);
    push_string_arg(&mut arg, bytes);
    push_le32(&mut arg, version);
    push_le32(&mut arg, new_id);
    proof {
        let n = bytes@.len();
        assert(string_arg(bytes@).len() == 4 + n + 1 + (pad4(n + 1) - (n + 1)));
        assert(arg@ =~= bind_args(name, bytes@, version, new_id));
    }
    let total_size = 8 + arg.len();
    push_le32(&mut msg, (total_size as u32) << 16 | 0u32);
    msg.append(&mut arg);
    assert(msg@ =~= bind_message(name, interface.spec_bytes(), version, new_id));
    msg
}

/// Every bind message whose length fits the 16-bit size field is well
/// formed: its length is a multiple of four and its header states it.
pub proof fn law_bind_message_well_formed(name: u32, interface: Seq<char>, version: u32, new_id: u32)
    requires
        encode_utf8(interface).len() + 32 < 0x10000,
    ensures
        well_formed_message(bind_message(name, encode_utf8(interface), version, new_id)),
{
    let bytes = encode_utf8(interface);
    let n = bytes.len();
    let args = bind_args(name, bytes, version, new_id);
    assert(args.len() == 4 + (4 + n + 1 + (pad4(n + 1) - (n + 1))) + 4 + 4);
    assert(args.len() == 12 + pad4(n + 1) + 4);
    assert(pad4(n + 1) % 4 == 0) by (nonlinear_arith)
        requires
            pad4(n + 1) == ((n + 1 + 3) / 4 * 4),
    ;
    law_message_well_formed(REGISTRY_ID, 0, args);
}

/// The wire format is shared by both directions: arguments laid out the way
/// `bind_global_request` lays out a global's name, interface and version are
/// read back by `parse_global` as that same name, interface and version.
pub proof fn law_bind_args_read_back_as_global(name: u32, interface: Seq<char>, version: u32, new_id: u32)
    requires
        encode_utf8(interface).len() + 32 < 0x10000,
    ensures
        global_args_readable(bind_args(name, encode_utf8(interface), version, new_id)),
        announced_global(bind_args(name, encode_utf8(interface), version, new_id)).id == name,
        announced_global(bind_args(name, encode_utf8(interface), version, new_id)).name
            == interface,
        announced_global(bind_args(name, encode_utf8(interface), version, new_id)).version
            == version,
{
    let bytes = encode_utf8(interface);
    let args = bind_args(name, bytes, version, new_id);
    let rest = le32(version) + le32(new_id);
    assert(args =~= le32(name) + string_arg(bytes) + rest);
    lemma_string_arg_roundtrip(le32(name), interface, rest);
    lemma_le32_roundtrip(name);
    lemma_le32_roundtrip(version);
    assert(args.subrange(0, 4) =~= le32(name));
    assert(le32_at(args, 0) == le32_at(le32(name), 0));
    let off: int = 8 + pad4(string_arg_len(args, 4)) as int;
    assert(args.subrange(off, args.len() as int) == rest);
    assert(args.subrange(off, off + 4) =~= le32(version)) by {
        assert(args.subrange(off, off + 4) =~= rest.subrange(0, 4));
    };
    assert(le32_at(args, off) == le32_at(le32(version), 0));
}

} // verus!
