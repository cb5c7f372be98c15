use vstd::prelude::*;
use vstd::utf8::encode_utf8;
use paper_utils::command::CommandByte;
use paper_utils::sheet::{Sheet, SheetBuilder};

verus! {

#[verifier::external_type_specification]
#[verifier::external_body]
pub struct ExSheetBuilder(SheetBuilder);

#[verifier::external_type_specification]
#[verifier::external_body]
pub struct ExSheet(Sheet);

/// The bytes a sheet builder has gathered so far.
pub uninterp spec fn builder_contents(b: SheetBuilder) -> Seq<u8>;

/// The bytes a sheet holds, which `Sheet::write` sends as they are.
pub uninterp spec fn sheet_contents(s: Sheet) -> Seq<u8>;

/// The little-endian bytes of a `u32`.
pub open spec fn le_u32(v: u32) -> Seq<u8> {
    seq![
        (v & 0xff) as u8,
        ((v >> 8) & 0xff) as u8,
        ((v >> 16) & 0xff) as u8,
        ((v >> 24) & 0xff) as u8,
    ]
}

/// The little-endian bytes of a `u64`.
pub open spec fn le_u64(v: u64) -> Seq<u8> {
    seq![
        (v & 0xff) as u8,
        ((v >> 8) & 0xff) as u8,
        ((v >> 16) & 0xff) as u8,
        ((v >> 24) & 0xff) as u8,
        ((v >> 32) & 0xff) as u8,
        ((v >> 40) & 0xff) as u8,
        ((v >> 48) & 0xff) as u8,
        ((v >> 56) & 0xff) as u8,
    ]
}

/// A byte buffer as the wire carries it: its length as a little-endian `u32`
/// (cut to 32 bits, as the `as u32` that writes it does), then its bytes.
pub open spec fn length_prefixed(bytes: Seq<u8>) -> Seq<u8> {
    le_u32((bytes.len() % 0x1_0000_0000) as u32) + bytes
}

/// Two numbers with the same little-endian bytes are the same number.
pub proof fn lemma_le_u32_injective(x: u32, y: u32)
    requires
        le_u32(x) == le_u32(y),
    ensures
        x == y,
{
    assert(le_u32(x)[0] == le_u32(y)[0]);
    assert(le_u32(x)[1] == le_u32(y)[1]);
    assert(le_u32(x)[2] == le_u32(y)[2]);
    assert(le_u32(x)[3] == le_u32(y)[3]);
    assert(((x & 0xff) as u8 == (y & 0xff) as u8 && ((x >> 8) & 0xff) as u8 == ((y >> 8) & 0xff) as u8
        && ((x >> 16) & 0xff) as u8 == ((y >> 16) & 0xff) as u8 && ((x >> 24) & 0xff) as u8 == ((y
        >> 24) & 0xff) as u8) ==> x == y) by (bit_vector);
}

/// Two numbers with the same little-endian bytes are the same number.
pub proof fn lemma_le_u64_injective(x: u64, y: u64)
    requires
        le_u64(x) == le_u64(y),
    ensures
        x == y,
{
    assert(le_u64(x)[0] == le_u64(y)[0]);
    assert(le_u64(x)[1] == le_u64(y)[1]);
    assert(le_u64(x)[2] == le_u64(y)[2]);
    assert(le_u64(x)[3] == le_u64(y)[3]);
    assert(le_u64(x)[4] == le_u64(y)[4]);
    assert(le_u64(x)[5] == le_u64(y)[5]);
    assert(le_u64(x)[6] == le_u64(y)[6]);
    assert(le_u64(x)[7] == le_u64(y)[7]);
    assert(((x & 0xff) as u8 == (y & 0xff) as u8 && ((x >> 8) & 0xff) as u8 == ((y >> 8) & 0xff) as u8
        && ((x >> 16) & 0xff) as u8 == ((y >> 16) & 0xff) as u8 && ((x >> 24) & 0xff) as u8 == ((y
        >> 24) & 0xff) as u8 && ((x >> 32) & 0xff) as u8 == ((y >> 32) & 0xff) as u8 && ((x >> 40)
        & 0xff) as u8 == ((y >> 40) & 0xff) as u8 && ((x >> 48) & 0xff) as u8 == ((y >> 48) & 0xff)
        as u8 && ((x >> 56) & 0xff) as u8 == ((y >> 56) & 0xff) as u8) ==> x == y) by (bit_vector);
}

/// A length-prefixed buffer at the head of a stream is read back exactly: when
/// both buffers fit their prefix, equal streams hold equal buffers and equal
/// rests.
pub proof fn lemma_length_prefixed_split(a: Seq<u8>, ra: Seq<u8>, b: Seq<u8>, rb: Seq<u8>)
    requires
        a.len() < 0x1_0000_0000,
        b.len() < 0x1_0000_0000,
        length_prefixed(a) + ra == length_prefixed(b) + rb,
    ensures
        a == b,
        ra == rb,
{
    let s = length_prefixed(a) + ra;
    assert(s.take(4) =~= le_u32(a.len() as u32));
    assert((length_prefixed(b) + rb).take(4) =~= le_u32(b.len() as u32));
    lemma_le_u32_injective(a.len() as u32, b.len() as u32);
    assert(s.subrange(4, 4 + a.len() as int) =~= a);
    assert((length_prefixed(b) + rb).subrange(4, 4 + b.len() as int) =~= b);
    assert(s.skip(4 + a.len() as int) =~= ra);
    assert((length_prefixed(b) + rb).skip(4 + b.len() as int) =~= rb);
}

/// Four little-endian bytes at the head of a stream are read back exactly.
pub proof fn lemma_le_u32_split(x: u32, ra: Seq<u8>, y: u32, rb: Seq<u8>)
    requires
        le_u32(x) + ra == le_u32(y) + rb,
    ensures
        x == y,
        ra == rb,
{
    assert((le_u32(x) + ra).take(4) =~= le_u32(x));
    assert((le_u32(y) + rb).take(4) =~= le_u32(y));
    lemma_le_u32_injective(x, y);
    assert((le_u32(x) + ra).skip(4) =~= ra);
    assert((le_u32(y) + rb).skip(4) =~= rb);
}

/// The number that the four bytes of `s` from position `i` spell, least
/// significant byte first.
pub open spec fn le_u32_at(s: Seq<u8>, i: int) -> int {
    s[i] + s[i + 1] * 0x100 + s[i + 2] * 0x1_0000 + s[i + 3] * 0x100_0000
}

/// The number that the eight bytes of `s` from position `i` spell, least
/// significant byte first.
pub open spec fn le_u64_at(s: Seq<u8>, i: int) -> int {
    le_u32_at(s, i) + le_u32_at(s, i + 4) * 0x1_0000_0000
}

/// The little-endian bytes of a `u32` spell that number.
pub proof fn lemma_le_u32_spells(x: u32)
    ensures
        le_u32(x).len() == 4,
        le_u32_at(le_u32(x), 0) == x,
{
    let b = le_u32(x);
    assert((x & 0xff) < 0x100 && ((x >> 8) & 0xff) < 0x100 && ((x >> 16) & 0xff) < 0x100 && ((x
        >> 24) & 0xff) < 0x100) by (bit_vector);
    assert(b[0] == x & 0xff);
    assert(b[1] == (x >> 8) & 0xff);
    assert(b[2] == (x >> 16) & 0xff);
    assert(b[3] == (x >> 24) & 0xff);
    assert((x & 0xff) + ((x >> 8) & 0xff) * 0x100 + ((x >> 16) & 0xff) * 0x1_0000 + ((x >> 24)
        & 0xff) * 0x100_0000 == x) by (bit_vector);
}

/// The little-endian bytes of a `u64` spell that number.
pub proof fn lemma_le_u64_spells(x: u64)
    ensures
        le_u64(x).len() == 8,
        le_u64_at(le_u64(x), 0) == x,
{
    let b = le_u64(x);
    assert((x & 0xff) < 0x100 && ((x >> 8) & 0xff) < 0x100 && ((x >> 16) & 0xff) < 0x100 && ((x
        >> 24) & 0xff) < 0x100 && ((x >> 32) & 0xff) < 0x100 && ((x >> 40) & 0xff) < 0x100 && ((x
        >> 48) & 0xff) < 0x100 && ((x >> 56) & 0xff) < 0x100) by (bit_vector);
    assert(b[0] == x & 0xff);
    assert(b[1] == (x >> 8) & 0xff);
    assert(b[2] == (x >> 16) & 0xff);
    assert(b[3] == (x >> 24) & 0xff);
    assert(b[4] == (x >> 32) & 0xff);
    assert(b[5] == (x >> 40) & 0xff);
    assert(b[6] == (x >> 48) & 0xff);
    assert(b[7] == (x >> 56) & 0xff);
    assert((x & 0xff) + ((x >> 8) & 0xff) * 0x100 + ((x >> 16) & 0xff) * 0x1_0000 + ((x >> 24)
        & 0xff) * 0x100_0000 + (((x >> 32) & 0xff) + ((x >> 40) & 0xff) * 0x100 + ((x >> 48)
        & 0xff) * 0x1_0000 + ((x >> 56) & 0xff) * 0x100_0000) * 0x1_0000_0000 == x)
        by (bit_vector);
}

/// `SheetBuilder::new`: a builder that holds no bytes yet.
#[verifier::external_body]
pub(crate) fn builder_new() -> (b: SheetBuilder)
    ensures
        builder_contents(b) == Seq::<u8>::empty(),
{
    SheetBuilder::new()
}

/// `SheetBuilder::write_u8`: appends the byte.
#[verifier::external_body]
pub(crate) fn builder_write_u8(b: SheetBuilder, value: u8) -> (r: SheetBuilder)
    ensures
        builder_contents(r) == builder_contents(b).push(value),
{
    b.write_u8(value)
}

/// `SheetBuilder::write_u32`: appends the value's little-endian bytes.
#[verifier::external_body]
pub(crate) fn builder_write_u32(b: SheetBuilder, value: u32) -> (r: SheetBuilder)
    ensures
        builder_contents(r) == builder_contents(b) + le_u32(value),
{
    b.write_u32(value)
}

/// `SheetBuilder::write_u64`: appends the value's little-endian bytes.
#[verifier::external_body]
pub(crate) fn builder_write_u64(b: SheetBuilder, value: u64) -> (r: SheetBuilder)
    ensures
        builder_contents(r) == builder_contents(b) + le_u64(value),
{
    b.write_u64(value)
}

/// `SheetBuilder::write_buf`: appends the buffer's length as a `u32` (the
/// `as u32` there cuts it to 32 bits), then the buffer.
#[verifier::external_body]
pub(crate) fn builder_write_buf(b: SheetBuilder, value: &[u8]) -> (r: SheetBuilder)
    ensures
        builder_contents(r) == builder_contents(b) + length_prefixed(value@),
{
    b.write_buf(value)
}

/// `SheetBuilder::write_str`: appends the string's UTF-8 bytes as `write_buf` does.
#[verifier::external_body]
pub(crate) fn builder_write_str(b: SheetBuilder, value: &str) -> (r: SheetBuilder)
    ensures
        builder_contents(r) == builder_contents(b) + length_prefixed(encode_utf8(value@)),
{
    b.write_str(value)
}

/// `SheetBuilder::into_sheet`: a sheet holding the bytes gathered.
#[verifier::external_body]
pub(crate) fn builder_into_sheet(b: SheetBuilder) -> (s: Sheet)
    ensures
        sheet_contents(s) == builder_contents(b),
{
    b.into_sheet()
}

/// The command byte `CommandByte::PING`, which paper_utils defines as 0.
#[verifier::external_body]
pub(crate) fn byte_ping() -> (b: u8)
    ensures
        b == 0,
{
    CommandByte::PING
}

/// The command byte `CommandByte::VERSION`, which paper_utils defines as 1.
#[verifier::external_body]
pub(crate) fn byte_version() -> (b: u8)
    ensures
        b == 1,
{
    CommandByte::VERSION
}

/// The command byte `CommandByte::AUTH`, which paper_utils defines as 2.
#[verifier::external_body]
pub(crate) fn byte_auth() -> (b: u8)
    ensures
        b == 2,
{
    CommandByte::AUTH
}

/// The command byte `CommandByte::GET`, which paper_utils defines as 3.
#[verifier::external_body]
pub(crate) fn byte_get() -> (b: u8)
    ensures
        b == 3,
{
    CommandByte::GET
}

/// The command byte `CommandByte::SET`, which paper_utils defines as 4.
#[verifier::external_body]
pub(crate) fn byte_set() -> (b: u8)
    ensures
        b == 4,
{
    CommandByte::SET
}

/// The command byte `CommandByte::DEL`, which paper_utils defines as 5.
#[verifier::external_body]
pub(crate) fn byte_del() -> (b: u8)
    ensures
        b == 5,
{
    CommandByte::DEL
}

/// The command byte `CommandByte::HAS`, which paper_utils defines as 6.
#[verifier::external_body]
pub(crate) fn byte_has() -> (b: u8)
    ensures
        b == 6,
{
    CommandByte::HAS
}

/// The command byte `CommandByte::PEEK`, which paper_utils defines as 7.
#[verifier::external_body]
pub(crate) fn byte_peek() -> (b: u8)
    ensures
        b == 7,
{
    CommandByte::PEEK
}

/// The command byte `CommandByte::TTL`, which paper_utils defines as 8.
#[verifier::external_body]
pub(crate) fn byte_ttl() -> (b: u8)
    ensures
        b == 8,
{
    CommandByte::TTL
}

/// The command byte `CommandByte::SIZE`, which paper_utils defines as 9.
#[verifier::external_body]
pub(crate) fn byte_size() -> (b: u8)
    ensures
        b == 9,
{
    CommandByte::SIZE
}

/// The command byte `CommandByte::WIPE`, which paper_utils defines as 10.
#[verifier::external_body]
pub(crate) fn byte_wipe() -> (b: u8)
    ensures
        b == 10,
{
    CommandByte::WIPE
}

/// The command byte `CommandByte::RESIZE`, which paper_utils defines as 11.
#[verifier::external_body]
pub(crate) fn byte_resize() -> (b: u8)
    ensures
        b == 11,
{
    CommandByte::RESIZE
}

/// The command byte `CommandByte::POLICY`, which paper_utils defines as 12.
#[verifier::external_body]
pub(crate) fn byte_policy() -> (b: u8)
    ensures
        b == 12,
{
    CommandByte::POLICY
}

/// The command byte `CommandByte::STATUS`, which paper_utils defines as 13.
#[verifier::external_body]
pub(crate) fn byte_status() -> (b: u8)
    ensures
        b == 13,
{
    CommandByte::STATUS
}

} // verus!
