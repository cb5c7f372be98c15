use vstd::prelude::*;
use vstd::slice::slice_to_vec;
use vstd::string::StringExecFns;
use vstd::utf8::{decode_utf8, encode_utf8, valid_utf8};
use std::str::Utf8Error;
use std::string::FromUtf8Error;

verus! {

/// A cached value: an owned, immutable byte buffer.
pub struct PaperValue(Box<[u8]>);

impl View for PaperValue {
    type V = Seq<u8>;

    closed spec fn view(&self) -> Seq<u8> {
        self.0@
    }
}

#[verifier::external_type_specification]
#[verifier::external_body]
pub struct ExUtf8Error(Utf8Error);

#[verifier::external_type_specification]
#[verifier::external_body]
pub struct ExFromUtf8Error(FromUtf8Error);

/// Moves the bytes of a vector into a boxed slice (`Vec::into_boxed_slice`).
/// The contract claims that the slice holds the vector's bytes, in order.
#[verifier::external_body]
fn vec_into_boxed_slice(v: Vec<u8>) -> (b: Box<[u8]>)
    ensures
        b@ == v@,
{
    v.into_boxed_slice()
}

/// Reads bytes as UTF-8 text (`std::str::from_utf8`). The contract claims what
/// std documents: success exactly on well-formed UTF-8, and then a string slice
/// over the same bytes. What the error value holds is left unsaid.
#[verifier::external_body]
fn str_from_utf8(bytes: &[u8]) -> (r: Result<&str, Utf8Error>)
    ensures
        r is Ok <==> valid_utf8(bytes@),
        r matches Ok(s) ==> s@ == decode_utf8(bytes@),
{
    std::str::from_utf8(bytes)
}

/// The bytes a `FromUtf8Error` holds: those its `as_bytes` and `into_bytes`
/// give back.
pub uninterp spec fn utf8_error_bytes(e: FromUtf8Error) -> Seq<u8>;

/// Turns owned bytes into a `String` (`String::from_utf8`). The contract claims
/// what std documents: success exactly on well-formed UTF-8, and then the string
/// those bytes encode; on failure, an error that holds the bytes it was given
/// (which `FromUtf8Error::into_bytes` gives back).
#[verifier::external_body]
fn string_from_utf8(bytes: Vec<u8>) -> (r: Result<String, FromUtf8Error>)
    ensures
        r is Ok <==> valid_utf8(bytes@),
        r matches Ok(s) ==> s@ == decode_utf8(bytes@),
        r matches Err(e) ==> utf8_error_bytes(e) == bytes@,
{
    String::from_utf8(bytes)
}

/// The value that holds exactly the given bytes.
pub open spec fn paper_value_of(bytes: Seq<u8>) -> PaperValue {
    choose|p: PaperValue| p@ == bytes
}

/// Two values with the same bytes are the same value.
pub proof fn lemma_value_determined_by_bytes(a: PaperValue, b: PaperValue)
    requires
        a@ == b@,
    ensures
        a == b,
{
    assert(&*a.0 =~= &*b.0);
}

/// The text shown for a value in debug output: short UTF-8 values are shown
/// quoted, anything longer than sixteen bytes or not UTF-8 is elided.
pub open spec fn debug_text_of(bytes: Seq<u8>) -> Seq<char> {
    if bytes.len() <= 16 && valid_utf8(bytes) {
        "PaperValue(\""@ + decode_utf8(bytes) + "\")"@
    } else {
        "PaperValue(...)"@
    }
}

impl PaperValue {
    fn from_boxed(buf: Box<[u8]>) -> (r: PaperValue)
        ensures
            r@ == buf@,
            r == paper_value_of(buf@),
    {
        let r = PaperValue(buf);
        proof {
            lemma_value_determined_by_bytes(r, paper_value_of(buf@));
        }
        r
    }

    /// The number of bytes the value holds.
    pub fn len(&self) -> (n: usize)
        ensures
            n == self@.len(),
    {
        self.0.len()
    }

    /// The value's bytes.
    pub fn as_bytes(&self) -> (b: &[u8])
        ensures
            b@ == self@,
    {
        &*self.0
    }

    /// The value read as UTF-8 text; an error when its bytes are not UTF-8.
    pub fn to_str(&self) -> (r: Result<&str, Utf8Error>)
        ensures
            r is Ok <==> valid_utf8(self@),
            r matches Ok(s) ==> s@ == decode_utf8(self@),
    {
        str_from_utf8(&*self.0)
    }

    /// What the value's debug output reads: `PaperValue("text")` for a value of
    /// at most sixteen bytes of UTF-8, `PaperValue(...)` otherwise.
    pub fn debug_text(&self) -> (s: String)
        ensures
            s@ == debug_text_of(self@),
    {
        if self.0.len() > 16 {
            return String::from_str("PaperValue(...)");
        }
        match self.to_str() {
            Ok(value) => {
                let mut s = String::from_str("PaperValue(\"");
                s.append(value);
                s.append("\")");
                s
            },
            Err(_) => String::from_str("PaperValue(...)"),
        }
    }
}

impl vstd::std_specs::convert::FromSpecImpl<Box<[u8]>> for PaperValue {
    open spec fn obeys_from_spec() -> bool {
        true
    }

    open spec fn from_spec(v: Box<[u8]>) -> PaperValue {
        paper_value_of(v@)
    }
}

impl From<Box<[u8]>> for PaperValue {
    fn from(value: Box<[u8]>) -> (r: PaperValue)
        ensures
            r@ == value@,
    {
        PaperValue::from_boxed(value)
    }
}

impl vstd::std_specs::convert::FromSpecImpl<&[u8]> for PaperValue {
    open spec fn obeys_from_spec() -> bool {
        true
    }

    open spec fn from_spec(v: &[u8]) -> PaperValue {
        paper_value_of(v@)
    }
}

impl From<&[u8]> for PaperValue {
    fn from(value: &[u8]) -> (r: PaperValue)
        ensures
            r@ == value@,
    {
        PaperValue::from_boxed(vec_into_boxed_slice(slice_to_vec(value)))
    }
}

impl vstd::std_specs::convert::FromSpecImpl<Vec<u8>> for PaperValue {
    open spec fn obeys_from_spec() -> bool {
        true
    }

    open spec fn from_spec(v: Vec<u8>) -> PaperValue {
        paper_value_of(v@)
    }
}

impl From<Vec<u8>> for PaperValue {
    fn from(value: Vec<u8>) -> (r: PaperValue)
        ensures
            r@ == value@,
    {
        PaperValue::from_boxed(vec_into_boxed_slice(value))
    }
}

impl vstd::std_specs::convert::FromSpecImpl<&str> for PaperValue {
    open spec fn obeys_from_spec() -> bool {
        true
    }

    open spec fn from_spec(v: &str) -> PaperValue {
        paper_value_of(encode_utf8(v@))
    }
}

impl From<&str> for PaperValue {
    fn from(value: &str) -> (r: PaperValue)
        ensures
            r@ == encode_utf8(value@),
    {
        PaperValue::from_boxed(vec_into_boxed_slice(slice_to_vec(value.as_bytes())))
    }
}

impl vstd::std_specs::convert::FromSpecImpl<String> for PaperValue {
    open spec fn obeys_from_spec() -> bool {
        true
    }

    open spec fn from_spec(v: String) -> PaperValue {
        paper_value_of(encode_utf8(v@))
    }
}

impl From<String> for PaperValue {
    fn from(value: String) -> (r: PaperValue)
        ensures
            r@ == encode_utf8(value@),
    {
        PaperValue::from(value.as_str())
    }
}

impl vstd::std_specs::convert::FromSpecImpl<&String> for PaperValue {
    open spec fn obeys_from_spec() -> bool {
        true
    }

    open spec fn from_spec(v: &String) -> PaperValue {
        paper_value_of(encode_utf8(v@))
    }
}

impl From<&String> for PaperValue {
    fn from(value: &String) -> (r: PaperValue)
        ensures
            r@ == encode_utf8(value@),
    {
        PaperValue::from(value.as_str())
    }
}

impl vstd::std_specs::convert::FromSpecImpl<PaperValue> for Box<[u8]> {
    open spec fn obeys_from_spec() -> bool {
        true
    }

    closed spec fn from_spec(v: PaperValue) -> Box<[u8]> {
        v.0
    }
}

impl From<PaperValue> for Box<[u8]> {
    fn from(value: PaperValue) -> (r: Box<[u8]>)
        ensures
            r@ == value@,
    {
        value.0
    }
}

impl<'a> vstd::std_specs::convert::FromSpecImpl<&'a PaperValue> for &'a [u8] {
    open spec fn obeys_from_spec() -> bool {
        true
    }

    closed spec fn from_spec(v: &'a PaperValue) -> &'a [u8] {
        &*v.0
    }
}

impl<'a> From<&'a PaperValue> for &'a [u8] {
    fn from(value: &'a PaperValue) -> (r: &'a [u8])
        ensures
            r@ == value@,
    {
        value.as_bytes()
    }
}

impl vstd::std_specs::convert::FromSpecImpl<PaperValue> for Vec<u8> {
    open spec fn obeys_from_spec() -> bool {
        false
    }

    open spec fn from_spec(v: PaperValue) -> Vec<u8> {
        arbitrary()
    }
}

impl From<PaperValue> for Vec<u8> {
    fn from(value: PaperValue) -> (r: Vec<u8>)
        ensures
            r@ == value@,
    {
        slice_to_vec(value.as_bytes())
    }
}

impl<'a> vstd::std_specs::convert::TryFromSpecImpl<&'a PaperValue> for &'a str {
    open spec fn obeys_try_from_spec() -> bool {
        false
    }

    open spec fn try_from_spec(v: &'a PaperValue) -> Result<&'a str, Utf8Error> {
        arbitrary()
    }
}

impl<'a> TryFrom<&'a PaperValue> for &'a str {
    type Error = Utf8Error;

    fn try_from(value: &'a PaperValue) -> (r: Result<&'a str, Utf8Error>)
        ensures
            r is Ok <==> valid_utf8(value@),
            r matches Ok(s) ==> s@ == decode_utf8(value@),
    {
        value.to_str()
    }
}

impl vstd::std_specs::convert::TryFromSpecImpl<PaperValue> for String {
    open spec fn obeys_try_from_spec() -> bool {
        false
    }

    open spec fn try_from_spec(v: PaperValue) -> Result<String, FromUtf8Error> {
        arbitrary()
    }
}

impl TryFrom<PaperValue> for String {
    type Error = FromUtf8Error;

    fn try_from(value: PaperValue) -> (r: Result<String, FromUtf8Error>)
        ensures
            r is Ok <==> valid_utf8(value@),
            r matches Ok(s) ==> s@ == decode_utf8(value@),
            r matches Err(e) ==> utf8_error_bytes(e) == value@,
    {
        string_from_utf8(slice_to_vec(value.as_bytes()))
    }
}

/// Text made into a value reads back as the same text: its UTF-8 bytes are
/// well-formed and decode to it (so `String::try_from(PaperValue::from(t))`
/// gives back `t`).
pub proof fn lemma_text_value_round_trip(t: Seq<char>)
    ensures
        valid_utf8(encode_utf8(t)),
        decode_utf8(encode_utf8(t)) == t,
{
    vstd::utf8::encode_utf8_valid_utf8(t);
    vstd::utf8::encode_utf8_decode_utf8(t);
}

} // verus!
