//! The Wayland wire format: little-endian 32-bit words, the message header
//! (object id, then size in the upper and opcode in the lower 16 bits of one
//! word) and the padded string argument.
use vstd::prelude::*;
use vstd::slice::slice_subrange;
use vstd::utf8::{decode_utf8, encode_utf8, valid_utf8};

verus! {

/// The four little-endian bytes of a 32-bit word.
pub open spec fn le32(v: u32) -> Seq<u8> {
    seq![
        (v & 0xff) as u8,
        ((v >> 8) & 0xff) as u8,
        ((v >> 16) & 0xff) as u8,
        ((v >> 24) & 0xff) as u8,
    ]
}

/// The word whose little-endian bytes are `b0`, `b1`, `b2`, `b3`.
pub open spec fn word_of(b0: u8, b1: u8, b2: u8, b3: u8) -> u32 {
    (b0 as u32) | ((b1 as u32) << 8) | ((b2 as u32) << 16) | ((b3 as u32) << 24)
}

/// The little-endian word stored at byte offset `off` of `s`.
pub open spec fn le32_at(s: Seq<u8>, off: int) -> u32 {
    word_of(s[off], s[off + 1], s[off + 2], s[off + 3])
}

/// The second word of a message: its size in bytes in the upper half and
/// its opcode in the lower half.
pub open spec fn header_word(size: u32, opcode: u32) -> u32 {
    (size << 16) | opcode
}

/// A message as it goes over the socket.
pub open spec fn message(object_id: u32, size: u32, opcode: u32, args: Seq<u8>) -> Seq<u8> {
    le32(object_id) + le32(header_word(size, opcode)) + args
}

/// `n` rounded up to a multiple of four.
pub open spec fn pad4(n: nat) -> nat {
    ((n + 3) / 4 * 4) as nat
}

/// `n` zero bytes.
pub open spec fn zeros(n: nat) -> Seq<u8> {
    Seq::new(n, |i: int| 0u8)
}

/// A string argument: its length including the terminating NUL, its bytes,
/// the NUL, and zero padding up to a multiple of four bytes.
pub open spec fn string_arg(bytes: Seq<u8>) -> Seq<u8> {
    le32(((bytes.len() as u32) + 1) as u32) + bytes + seq![0u8] + zeros(
        (pad4(bytes.len() + 1) - (bytes.len() + 1)) as nat,
    )
}

/// Decoding a little-endian word gives back the word that was encoded.
pub proof fn lemma_le32_roundtrip(v: u32)
    ensures
        le32(v).len() == 4,
        le32_at(le32(v), 0) == v,
{
    let b0 = (v & 0xff) as u8;
    let b1 = ((v >> 8) & 0xff) as u8;
    let b2 = ((v >> 16) & 0xff) as u8;
    let b3 = ((v >> 24) & 0xff) as u8;
    assert(word_of(b0, b1, b2, b3) == v) by (bit_vector)
        requires
            b0 == (v & 0xff) as u8,
            b1 == ((v >> 8) & 0xff) as u8,
            b2 == ((v >> 16) & 0xff) as u8,
            b3 == ((v >> 24) & 0xff) as u8,
    ;
}

/// Encoding the word read from four bytes gives back those bytes.
pub proof fn law_le32_bytes_roundtrip(s: Seq<u8>, off: int)
    requires
        0 <= off,
        off + 4 <= s.len(),
    ensures
        le32(le32_at(s, off)) == s.subrange(off, off + 4),
{
    let b0 = s[off];
    let b1 = s[off + 1];
    let b2 = s[off + 2];
    let b3 = s[off + 3];
    let w = word_of(b0, b1, b2, b3);
    assert((w & 0xff) as u8 == b0 && ((w >> 8) & 0xff) as u8 == b1 && ((w >> 16) & 0xff) as u8
        == b2 && ((w >> 24) & 0xff) as u8 == b3) by (bit_vector)
        requires
            w == word_of(b0, b1, b2, b3),
    ;
    assert(le32(w) =~= s.subrange(off, off + 4));
}

/// The size and opcode read back from a header word are those written into it.
pub proof fn lemma_header_roundtrip(size: u32, opcode: u32)
    requires
        size < 0x10000,
        opcode < 0x10000,
    ensures
        (header_word(size, opcode) >> 16) as u16 == size,
        (header_word(size, opcode) & 0xffff) as u16 == opcode,
{
    assert(((size << 16) | opcode) >> 16 == size && ((size << 16) | opcode) & 0xffff == opcode)
        by (bit_vector)
        requires
            size < 0x10000,
            opcode < 0x10000,
    ;
}

/// Appends the little-endian bytes of `v`.
pub fn push_le32(buf: &mut Vec<u8>, v: u32)
    ensures
        final(buf)@ == old(buf)@ + le32(v),
{
    buf.push((v & 0xff) as u8);
    buf.push(((v >> 8) & 0xff) as u8);
    buf.push(((v >> 16) & 0xff) as u8);
    buf.push(((v >> 24) & 0xff) as u8);
    assert(final(buf)@ =~= old(buf)@ + le32(v));
}

/// Reads the little-endian word at byte offset `off`.
pub fn read_le32(s: &[u8], off: usize) -> (v: u32)
    requires
        off + 4 <= s@.len(),
    ensures
        v == le32_at(s@, off as int),
{
    (s[off] as u32) | ((s[off + 1] as u32) << 8) | ((s[off + 2] as u32) << 16) | ((s[off + 3]
        as u32) << 24)
}

/// `(n + 3) & !3` is `n` rounded up to a multiple of four.
pub proof fn lemma_round_up4(n: usize)
    requires
        n + 3 <= usize::MAX,
    ensures
        ((n + 3) as usize) & !3usize == pad4(n as nat),
{
    let m: usize = (n + 3) as usize;
    assert(m & !3usize == m - m % 4) by (bit_vector);
    assert(m - m % 4 == (m / 4) * 4) by (nonlinear_arith);
}

/// Appends a string argument holding `bytes`.
pub fn push_string_arg(buf: &mut Vec<u8>, bytes: &[u8])
    requires
        (bytes@.len() as u32) < u32::MAX,
        bytes@.len() + 4 <= usize::MAX,
    ensures
        final(buf)@ == old(buf)@ + string_arg(bytes@),
{
    push_le32(buf, (bytes.len() as u32) + 1);
    let mut i: usize = 0;
    while i < bytes.len()
        invariant
            i <= bytes@.len(),
            buf@ == old(buf)@ + le32(((bytes@.len() as u32) + 1) as u32) + bytes@.subrange(0, i as int),
        decreases bytes@.len() - i,
    {
        buf.push(bytes[i]);
        i = i + 1;
        assert(buf@ =~= old(buf)@ + le32(((bytes@.len() as u32) + 1) as u32) + bytes@.subrange(0, i as int));
    }
    buf.push(0u8);
    let data_len = bytes.len() + 1;
    let padded_len = (data_len + 3) & !3;
    proof {
        lemma_round_up4(data_len);
    }
    let padding = padded_len - data_len;
    let ghost before = buf@;
    let mut k: usize = 0;
    while k < padding
        invariant
            k <= padding,
            buf@ == before + zeros(k as nat),
        decreases padding - k,
    {
        buf.push(0u8);
        k = k + 1;
        assert(buf@ =~= before + zeros(k as nat));
    }
    assert(bytes@.subrange(0, bytes@.len() as int) =~= bytes@);
    assert(buf@ =~= old(buf)@ + string_arg(bytes@));
}

/// The length of a string argument as it stands in its first word.
pub open spec fn string_arg_len(args: Seq<u8>, off: int) -> nat {
    le32_at(args, off) as nat
}

/// The UTF-8 text that a lossy decoding of `bytes` gives; on valid UTF-8 it
/// is the decoded text.
pub uninterp spec fn utf8_lossy(bytes: Seq<u8>) -> Seq<char>;

/// Calls `String::from_utf8_lossy`, which decodes UTF-8 and replaces each
/// invalid sequence with U+FFFD. Trusted: its result is `utf8_lossy` of the
/// bytes, and on valid UTF-8 it is exactly the decoded text (as std
/// documents); what it gives on invalid bytes is left unsaid.
#[verifier::external_body]
pub(crate) fn string_from_utf8_lossy(bytes: &[u8]) -> (s: String)
    ensures
        s@ == utf8_lossy(bytes@),
        valid_utf8(bytes@) ==> s@ == decode_utf8(bytes@),
{
    String::from_utf8_lossy(bytes).into_owned()
}

/// A string argument can be read at byte offset `off` of `args`: its length
/// word is there, the length counts at least the NUL, and the text fits.
pub open spec fn string_arg_readable(args: Seq<u8>, off: int) -> bool {
    &&& 0 <= off
    &&& off + 4 <= args.len()
    &&& string_arg_len(args, off) >= 1
    &&& off + 4 + string_arg_len(args, off) - 1 <= args.len()
}

/// The text of the string argument at `off`, as the lossy decoding of the
/// bytes before its NUL.
pub open spec fn string_arg_text(args: Seq<u8>, off: int) -> Seq<char> {
    lossy_text(args.subrange(off + 4, off + 4 + string_arg_len(args, off) - 1))
}

/// What a lossy UTF-8 decoding gives: the decoded text on valid UTF-8, and
/// `utf8_lossy` otherwise.
pub open spec fn lossy_text(bytes: Seq<u8>) -> Seq<char> {
    if valid_utf8(bytes) {
        decode_utf8(bytes)
    } else {
        utf8_lossy(bytes)
    }
}

/// Reads the text of the string argument at byte offset `off`.
pub fn read_string_arg(args: &[u8], off: usize) -> (s: String)
    requires
        string_arg_readable(args@, off as int),
    ensures
        s@ == string_arg_text(args@, off as int),
{
    let total = args.len();
    let len = read_le32(args, off) as usize;
    assert(off + 4 + len - 1 <= total);
    let text = slice_subrange(args, off + 4, off + 4 + (len - 1));
    string_from_utf8_lossy(text)
}

/// A string written as a string argument is read back unchanged, and the
/// word that follows its padding is where the reader expects it.
pub proof fn lemma_string_arg_roundtrip(prefix: Seq<u8>, s: Seq<char>, rest: Seq<u8>)
    requires
        (encode_utf8(s).len() as u32) < u32::MAX,
        encode_utf8(s).len() < u32::MAX,
    ensures
        ({
            let args = prefix + string_arg(encode_utf8(s)) + rest;
            let off = prefix.len() as int;
            &&& string_arg_readable(args, off)
            &&& string_arg_text(args, off) == s
            &&& string_arg_len(args, off) == encode_utf8(s).len() + 1
            &&& off + 4 + pad4(string_arg_len(args, off)) == off + string_arg(encode_utf8(s)).len()
            &&& args.subrange(off + 4 + pad4(string_arg_len(args, off)) as int, args.len() as int) == rest
        }),
{
    let bytes = encode_utf8(s);
    let n = bytes.len();
    let args = prefix + string_arg(bytes) + rest;
    let off = prefix.len() as int;
    lemma_le32_roundtrip(((n as u32) + 1) as u32);
    assert(((n as u32) + 1) as u32 == n + 1);
    assert(args.subrange(off, off + 4) =~= le32(((n as u32) + 1) as u32));
    assert(le32_at(args, off) == le32_at(le32(((n as u32) + 1) as u32), 0));
    assert(args.subrange(off + 4, off + 4 + n) =~= bytes);
    vstd::utf8::encode_utf8_valid_utf8(s);
    vstd::utf8::encode_utf8_decode_utf8(s);
}

/// The first eight bytes of a message: the object it addresses, its size in
/// bytes (header included) and its opcode.
#[derive(Debug, Clone, Copy, PartialEq, Eq)]
pub struct MessageHeader {
    pub object_id: u32,
    pub size: u16,
    pub opcode: u16,
}

/// The header that the first eight bytes of `bytes` hold.
pub open spec fn header_of(bytes: Seq<u8>) -> MessageHeader {
    MessageHeader {
        object_id: le32_at(bytes, 0),
        size: (le32_at(bytes, 4) >> 16) as u16,
        opcode: (le32_at(bytes, 4) & 0xffff) as u16,
    }
}

/// Reads the header at the start of `bytes`.
pub fn decode_header(bytes: &[u8]) -> (h: MessageHeader)
    requires
        bytes@.len() >= 8,
    ensures
        h == header_of(bytes@),
{
    let object_id = read_le32(bytes, 0);
    let size_opcode = read_le32(bytes, 4);
    let size = (size_opcode >> 16) as u16;
    let opcode = (size_opcode & 0xFFFF) as u16;
    MessageHeader { object_id, size, opcode }
}

/// A message's header reads back as the object, size and opcode it was
/// written with, for every size and opcode that fit in 16 bits.
pub proof fn law_header_roundtrip(object_id: u32, size: u32, opcode: u32, args: Seq<u8>)
    requires
        size < 0x10000,
        opcode < 0x10000,
    ensures
        header_of(message(object_id, size, opcode, args)) == (MessageHeader {
            object_id,
            size: size as u16,
            opcode: opcode as u16,
        }),
{
    let m = message(object_id, size, opcode, args);
    lemma_le32_roundtrip(object_id);
    lemma_le32_roundtrip(header_word(size, opcode));
    lemma_header_roundtrip(size, opcode);
    assert(m.subrange(0, 4) =~= le32(object_id));
    assert(m.subrange(4, 8) =~= le32(header_word(size, opcode)));
    assert(le32_at(m, 0) == le32_at(le32(object_id), 0));
    assert(le32_at(m, 4) == le32_at(le32(header_word(size, opcode)), 0));
}

/// A message is well formed when its length is a multiple of four and its
/// header states that length.
pub open spec fn well_formed_message(m: Seq<u8>) -> bool {
    &&& m.len() >= 8
    &&& m.len() % 4 == 0
    &&& header_of(m).size == m.len()
}

/// A message whose size is eight plus the length of arguments made of whole
/// words is well formed.
pub proof fn law_message_well_formed(object_id: u32, opcode: u32, args: Seq<u8>)
    requires
        args.len() % 4 == 0,
        8 + args.len() < 0x10000,
        opcode < 0x10000,
    ensures
        well_formed_message(message(object_id, (8 + args.len()) as u32, opcode, args)),
{
    law_header_roundtrip(object_id, (8 + args.len()) as u32, opcode, args);
}

} // verus!
