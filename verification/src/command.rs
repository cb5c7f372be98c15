use vstd::prelude::*;
use vstd::utf8::encode_utf8;
use paper_utils::sheet::Sheet;
use crate::policy::{policy_text, PaperPolicy};
use crate::value::PaperValue;
use crate::wire::{
    builder_contents, builder_into_sheet, builder_new, builder_write_buf, builder_write_str,
    builder_write_u32, builder_write_u64, builder_write_u8, byte_auth, byte_del, byte_get,
    byte_has, byte_peek, byte_ping, byte_policy, byte_resize, byte_set, byte_size, byte_status,
    byte_ttl, byte_version, byte_wipe, le_u32, le_u64, length_prefixed, lemma_le_u32_split,
    lemma_le_u64_injective, lemma_length_prefixed_split, sheet_contents, le_u32_at, le_u64_at,
    lemma_le_u32_spells, lemma_le_u64_spells,
};
use vstd::utf8::encode_utf8_decode_utf8;

verus! {

/// A request to the cache server.
pub enum Command<'a> {
    Ping,
    Version,
    Auth(&'a str),
    Get(&'a [u8]),
    /// Stores a value under a key, with a time to live (the `SET` command).
    SetValue(&'a [u8], PaperValue, u32),
    Del(&'a [u8]),
    Has(&'a [u8]),
    Peek(&'a [u8]),
    Ttl(&'a [u8], u32),
    Size(&'a [u8]),
    Wipe,
    Resize(u64),
    Policy(PaperPolicy),
    Status,
}

/// The byte that opens each command on the wire.
pub open spec fn command_byte(c: Command) -> u8 {
    match c {
        Command::Ping => 0,
        Command::Version => 1,
        Command::Auth(_) => 2,
        Command::Get(_) => 3,
        Command::SetValue(_, _, _) => 4,
        Command::Del(_) => 5,
        Command::Has(_) => 6,
        Command::Peek(_) => 7,
        Command::Ttl(_, _) => 8,
        Command::Size(_) => 9,
        Command::Wipe => 10,
        Command::Resize(_) => 11,
        Command::Policy(_) => 12,
        Command::Status => 13,
    }
}

/// What follows the command byte: keys, values and texts as length-prefixed
/// buffers, numbers as little-endian integers, in the order of the fields.
pub open spec fn command_arguments(c: Command) -> Seq<u8> {
    match c {
        Command::Auth(token) => length_prefixed(encode_utf8(token@)),
        Command::Get(key) => length_prefixed(key@),
        Command::SetValue(key, value, ttl) => length_prefixed(key@) + length_prefixed(value@) + le_u32(
            ttl,
        ),
        Command::Del(key) => length_prefixed(key@),
        Command::Has(key) => length_prefixed(key@),
        Command::Peek(key) => length_prefixed(key@),
        Command::Ttl(key, ttl) => length_prefixed(key@) + le_u32(ttl),
        Command::Size(key) => length_prefixed(key@),
        Command::Resize(size) => le_u64(size),
        Command::Policy(policy) => length_prefixed(encode_utf8(policy_text(policy@))),
        _ => Seq::empty(),
    }
}

/// The bytes a command is sent as.
pub open spec fn command_bytes(c: Command) -> Seq<u8> {
    seq![command_byte(c)] + command_arguments(c)
}

impl<'a> Command<'a> {
    /// The sheet that carries this command to the server.
    pub fn to_sheet(&self) -> (s: Sheet)
        ensures
            sheet_contents(s) == command_bytes(*self),
    {
        let b = builder_new();
        let ghost empty = builder_contents(b);
        let b = match self {
            Command::Ping => builder_write_u8(b, byte_ping()),
            Command::Version => builder_write_u8(b, byte_version()),
            Command::Auth(token) => {
                let b = builder_write_u8(b, byte_auth());
                builder_write_str(b, token)
            },
            Command::Get(key) => {
                let b = builder_write_u8(b, byte_get());
                builder_write_buf(b, key)
            },
            Command::SetValue(key, value, ttl) => {
                let b = builder_write_u8(b, byte_set());
                let b = builder_write_buf(b, key);
                let b = builder_write_buf(b, value.as_bytes());
                builder_write_u32(b, *ttl)
            },
            Command::Del(key) => {
                let b = builder_write_u8(b, byte_del());
                builder_write_buf(b, key)
            },
            Command::Has(key) => {
                let b = builder_write_u8(b, byte_has());
                builder_write_buf(b, key)
            },
            Command::Peek(key) => {
                let b = builder_write_u8(b, byte_peek());
                builder_write_buf(b, key)
            },
            Command::Ttl(key, ttl) => {
                let b = builder_write_u8(b, byte_ttl());
                let b = builder_write_buf(b, key);
                builder_write_u32(b, *ttl)
            },
            Command::Size(key) => {
                let b = builder_write_u8(b, byte_size());
                builder_write_buf(b, key)
            },
            Command::Wipe => builder_write_u8(b, byte_wipe()),
            Command::Resize(size) => {
                let b = builder_write_u8(b, byte_resize());
                builder_write_u64(b, *size)
            },
            Command::Policy(policy) => {
                let b = builder_write_u8(b, byte_policy());
                let text = policy.to_text();
                builder_write_str(b, text.as_str())
            },
            Command::Status => builder_write_u8(b, byte_status()),
        };
        proof {
            assert(empty.push(command_byte(*self)) == seq![command_byte(*self)]);
            assert(builder_contents(b) =~= command_bytes(*self));
        }
        builder_into_sheet(b)
    }
}

/// Every buffer the command carries is short enough for its `u32` length prefix.
pub open spec fn fits_wire(c: Command) -> bool {
    let limit = 0x1_0000_0000int;
    match c {
        Command::Auth(token) => encode_utf8(token@).len() < limit,
        Command::Get(key) => key@.len() < limit,
        Command::SetValue(key, value, _) => key@.len() < limit && value@.len() < limit,
        Command::Del(key) => key@.len() < limit,
        Command::Has(key) => key@.len() < limit,
        Command::Peek(key) => key@.len() < limit,
        Command::Ttl(key, _) => key@.len() < limit,
        Command::Size(key) => key@.len() < limit,
        Command::Policy(policy) => encode_utf8(policy_text(policy@)).len() < limit,
        _ => true,
    }
}

/// Two commands ask the same of the server: the same command with the same
/// keys, values, numbers and texts (a policy counts by its text).
pub open spec fn same_request(a: Command, b: Command) -> bool {
    match (a, b) {
        (Command::Ping, Command::Ping) => true,
        (Command::Version, Command::Version) => true,
        (Command::Auth(x), Command::Auth(y)) => x@ == y@,
        (Command::Get(x), Command::Get(y)) => x@ == y@,
        (Command::SetValue(k1, v1, t1), Command::SetValue(k2, v2, t2)) => k1@ == k2@ && v1@
            == v2@ && t1 == t2,
        (Command::Del(x), Command::Del(y)) => x@ == y@,
        (Command::Has(x), Command::Has(y)) => x@ == y@,
        (Command::Peek(x), Command::Peek(y)) => x@ == y@,
        (Command::Ttl(k1, t1), Command::Ttl(k2, t2)) => k1@ == k2@ && t1 == t2,
        (Command::Size(x), Command::Size(y)) => x@ == y@,
        (Command::Wipe, Command::Wipe) => true,
        (Command::Resize(x), Command::Resize(y)) => x == y,
        (Command::Policy(p), Command::Policy(q)) => policy_text(p@) == policy_text(q@),
        (Command::Status, Command::Status) => true,
        _ => false,
    }
}

/// Requests are unambiguous on the wire: when the bytes of one command,
/// followed by whatever comes next on the stream, equal those of another
/// followed by what comes next there, the two commands ask the same and what
/// follows them is the same. So a stream of requests splits into its
/// commands in exactly one way.
pub proof fn lemma_command_bytes_unambiguous(a: Command, ra: Seq<u8>, b: Command, rb: Seq<u8>)
    requires
        fits_wire(a),
        fits_wire(b),
        command_bytes(a) + ra == command_bytes(b) + rb,
    ensures
        same_request(a, b),
        ra == rb,
{
    let s = command_bytes(a) + ra;
    let t = command_bytes(b) + rb;
    assert(s[0] == command_byte(a));
    assert(t[0] == command_byte(b));
    assert(s.skip(1) =~= command_arguments(a) + ra);
    assert(t.skip(1) =~= command_arguments(b) + rb);
    let sa = command_arguments(a) + ra;
    let sb = command_arguments(b) + rb;
    assert(sa == sb);
    match (a, b) {
        (Command::Auth(x), Command::Auth(y)) => {
            lemma_length_prefixed_split(encode_utf8(x@), ra, encode_utf8(y@), rb);
            encode_utf8_decode_utf8(x@);
            encode_utf8_decode_utf8(y@);
        },
        (Command::Get(x), Command::Get(y)) => {
            lemma_length_prefixed_split(x@, ra, y@, rb);
        },
        (Command::SetValue(k1, v1, t1), Command::SetValue(k2, v2, t2)) => {
            let r1 = length_prefixed(v1@) + le_u32(t1) + ra;
            let r2 = length_prefixed(v2@) + le_u32(t2) + rb;
            assert(sa =~= length_prefixed(k1@) + r1);
            assert(sb =~= length_prefixed(k2@) + r2);
            lemma_length_prefixed_split(k1@, r1, k2@, r2);
            assert(r1 =~= length_prefixed(v1@) + (le_u32(t1) + ra));
            assert(r2 =~= length_prefixed(v2@) + (le_u32(t2) + rb));
            lemma_length_prefixed_split(v1@, le_u32(t1) + ra, v2@, le_u32(t2) + rb);
            lemma_le_u32_split(t1, ra, t2, rb);
        },
        (Command::Del(x), Command::Del(y)) => {
            lemma_length_prefixed_split(x@, ra, y@, rb);
        },
        (Command::Has(x), Command::Has(y)) => {
            lemma_length_prefixed_split(x@, ra, y@, rb);
        },
        (Command::Peek(x), Command::Peek(y)) => {
            lemma_length_prefixed_split(x@, ra, y@, rb);
        },
        (Command::Ttl(k1, t1), Command::Ttl(k2, t2)) => {
            assert(sa =~= length_prefixed(k1@) + (le_u32(t1) + ra));
            assert(sb =~= length_prefixed(k2@) + (le_u32(t2) + rb));
            lemma_length_prefixed_split(k1@, le_u32(t1) + ra, k2@, le_u32(t2) + rb);
            lemma_le_u32_split(t1, ra, t2, rb);
        },
        (Command::Size(x), Command::Size(y)) => {
            lemma_length_prefixed_split(x@, ra, y@, rb);
        },
        (Command::Resize(x), Command::Resize(y)) => {
            assert(sa.take(8) =~= le_u64(x));
            assert(sb.take(8) =~= le_u64(y));
            lemma_le_u64_injective(x, y);
            assert(sa.skip(8) =~= ra);
            assert(sb.skip(8) =~= rb);
        },
        (Command::Policy(p), Command::Policy(q)) => {
            lemma_length_prefixed_split(
                encode_utf8(policy_text(p@)),
                ra,
                encode_utf8(policy_text(q@)),
                rb,
            );
            encode_utf8_decode_utf8(policy_text(p@));
            encode_utf8_decode_utf8(policy_text(q@));
        },
        _ => {
            assert(sa =~= ra);
            assert(sb =~= rb);
        },
    }
}

/// The bytes of `s` from position `i` are a buffer as the wire carries it:
/// its length, cut to 32 bits, as four little-endian bytes, then `data`.
pub open spec fn carries_buffer(s: Seq<u8>, i: int, data: Seq<u8>) -> bool {
    &&& 0 <= i
    &&& i + 4 + data.len() <= s.len()
    &&& le_u32_at(s, i) == data.len() % 0x1_0000_0000
    &&& s.subrange(i + 4, i + 4 + data.len()) == data
}

proof fn lemma_buffer_layout(pre: Seq<u8>, data: Seq<u8>, rest: Seq<u8>)
    ensures
        (pre + length_prefixed(data) + rest).len() == pre.len() + 4 + data.len() + rest.len(),
        carries_buffer(pre + length_prefixed(data) + rest, pre.len() as int, data),
{
    let n = (data.len() % 0x1_0000_0000) as u32;
    lemma_le_u32_spells(n);
    let s = pre + length_prefixed(data) + rest;
    let p = pre.len() as int;
    assert(s[p] == le_u32(n)[0]);
    assert(s[p + 1] == le_u32(n)[1]);
    assert(s[p + 2] == le_u32(n)[2]);
    assert(s[p + 3] == le_u32(n)[3]);
    assert(s.subrange(p + 4, p + 4 + data.len()) =~= data);
}

proof fn lemma_u32_layout(pre: Seq<u8>, x: u32, rest: Seq<u8>)
    ensures
        (pre + le_u32(x) + rest).len() == pre.len() + 4 + rest.len(),
        le_u32_at(pre + le_u32(x) + rest, pre.len() as int) == x,
{
    lemma_le_u32_spells(x);
    let s = pre + le_u32(x) + rest;
    let p = pre.len() as int;
    assert(s[p] == le_u32(x)[0]);
    assert(s[p + 1] == le_u32(x)[1]);
    assert(s[p + 2] == le_u32(x)[2]);
    assert(s[p + 3] == le_u32(x)[3]);
}

/// What each request is on the wire, stated byte by byte: a fixed opcode per
/// kind of request, whatever its fields (0 PING, 1 VERSION, 2 AUTH, 3 GET,
/// 4 SET, 5 DEL, 6 HAS, 7 PEEK, 8 TTL, 9 SIZE, 10 WIPE, 11 RESIZE, 12 POLICY,
/// 13 STATUS); then keys, values and texts as length-prefixed buffers holding
/// exactly their bytes, and the TTL and size as the very numbers given, in
/// little-endian order; and nothing else.
pub proof fn lemma_request_layout<'a>(
    key: &'a [u8],
    token: &'a str,
    value: PaperValue,
    ttl: u32,
    size: u64,
    policy: PaperPolicy,
)
    ensures
        command_bytes(Command::Ping) == seq![0u8],
        command_bytes(Command::Version) == seq![1u8],
        command_bytes(Command::Wipe) == seq![10u8],
        command_bytes(Command::Status) == seq![13u8],
        ({
            let s = command_bytes(Command::Auth(token));
            &&& s[0] == 2
            &&& s.len() == 5 + encode_utf8(token@).len()
            &&& carries_buffer(s, 1, encode_utf8(token@))
        }),
        ({
            let s = command_bytes(Command::Get(key));
            s[0] == 3 && s.len() == 5 + key@.len() && carries_buffer(s, 1, key@)
        }),
        ({
            let s = command_bytes(Command::Del(key));
            s[0] == 5 && s.len() == 5 + key@.len() && carries_buffer(s, 1, key@)
        }),
        ({
            let s = command_bytes(Command::Has(key));
            s[0] == 6 && s.len() == 5 + key@.len() && carries_buffer(s, 1, key@)
        }),
        ({
            let s = command_bytes(Command::Peek(key));
            s[0] == 7 && s.len() == 5 + key@.len() && carries_buffer(s, 1, key@)
        }),
        ({
            let s = command_bytes(Command::Size(key));
            s[0] == 9 && s.len() == 5 + key@.len() && carries_buffer(s, 1, key@)
        }),
        ({
            let s = command_bytes(Command::SetValue(key, value, ttl));
            let k = key@.len() as int;
            let v = value@.len() as int;
            &&& s[0] == 4
            &&& s.len() == 13 + k + v
            &&& carries_buffer(s, 1, key@)
            &&& carries_buffer(s, 5 + k, value@)
            &&& le_u32_at(s, 9 + k + v) == ttl
        }),
        ({
            let s = command_bytes(Command::Ttl(key, ttl));
            let k = key@.len() as int;
            &&& s[0] == 8
            &&& s.len() == 9 + k
            &&& carries_buffer(s, 1, key@)
            &&& le_u32_at(s, 5 + k) == ttl
        }),
        ({
            let s = command_bytes(Command::Resize(size));
            s[0] == 11 && s.len() == 9 && le_u64_at(s, 1) == size
        }),
        ({
            let s = command_bytes(Command::Policy(policy));
            let t = encode_utf8(policy_text(policy@));
            s[0] == 12 && s.len() == 5 + t.len() && carries_buffer(s, 1, t)
        }),
{
    let e = Seq::<u8>::empty();
    assert(command_bytes(Command::Ping) =~= seq![0u8]);
    assert(command_bytes(Command::Version) =~= seq![1u8]);
    assert(command_bytes(Command::Wipe) =~= seq![10u8]);
    assert(command_bytes(Command::Status) =~= seq![13u8]);
    let tok = encode_utf8(token@);
    assert(command_bytes(Command::Auth(token)) =~= seq![2u8] + length_prefixed(tok) + e);
    lemma_buffer_layout(seq![2u8], tok, e);
    assert(command_bytes(Command::Get(key)) =~= seq![3u8] + length_prefixed(key@) + e);
    lemma_buffer_layout(seq![3u8], key@, e);
    assert(command_bytes(Command::Del(key)) =~= seq![5u8] + length_prefixed(key@) + e);
    lemma_buffer_layout(seq![5u8], key@, e);
    assert(command_bytes(Command::Has(key)) =~= seq![6u8] + length_prefixed(key@) + e);
    lemma_buffer_layout(seq![6u8], key@, e);
    assert(command_bytes(Command::Peek(key)) =~= seq![7u8] + length_prefixed(key@) + e);
    lemma_buffer_layout(seq![7u8], key@, e);
    assert(command_bytes(Command::Size(key)) =~= seq![9u8] + length_prefixed(key@) + e);
    lemma_buffer_layout(seq![9u8], key@, e);

    let set = command_bytes(Command::SetValue(key, value, ttl));
    let a = seq![4u8] + length_prefixed(key@);
    let b = a + length_prefixed(value@);
    assert(set =~= seq![4u8] + length_prefixed(key@) + (length_prefixed(value@) + le_u32(ttl)));
    lemma_buffer_layout(seq![4u8], key@, length_prefixed(value@) + le_u32(ttl));
    assert(set =~= a + length_prefixed(value@) + le_u32(ttl));
    lemma_buffer_layout(a, value@, le_u32(ttl));
    assert(set =~= b + le_u32(ttl) + e);
    lemma_u32_layout(b, ttl, e);

    let t = command_bytes(Command::Ttl(key, ttl));
    assert(t =~= seq![8u8] + length_prefixed(key@) + le_u32(ttl));
    lemma_buffer_layout(seq![8u8], key@, le_u32(ttl));
    assert(t =~= (seq![8u8] + length_prefixed(key@)) + le_u32(ttl) + e);
    lemma_u32_layout(seq![8u8] + length_prefixed(key@), ttl, e);

    let r = command_bytes(Command::Resize(size));
    lemma_le_u64_spells(size);
    assert(r =~= seq![11u8] + le_u64(size));
    assert(r[1] == le_u64(size)[0]);
    assert(r[2] == le_u64(size)[1]);
    assert(r[3] == le_u64(size)[2]);
    assert(r[4] == le_u64(size)[3]);
    assert(r[5] == le_u64(size)[4]);
    assert(r[6] == le_u64(size)[5]);
    assert(r[7] == le_u64(size)[6]);
    assert(r[8] == le_u64(size)[7]);

    let pt = encode_utf8(policy_text(policy@));
    assert(command_bytes(Command::Policy(policy)) =~= seq![12u8] + length_prefixed(pt) + e);
    lemma_buffer_layout(seq![12u8], pt, e);
}

} // verus!
