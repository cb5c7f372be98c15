use vstd::prelude::*;
use vstd::utf8::encode_utf8;

verus! {

/// A cache key.
///
/// Keys are bytes rather than text: the wire carries a key as a buffer with a
/// `u32` length prefix, and the server never reads it as UTF-8, so a text key
/// is sent as its UTF-8 bytes. A numeric key can be sent as the bytes of an
/// array on the caller's stack (`key.to_le_bytes()`), with nothing to allocate.
pub trait AsPaperKey {
    /// The bytes that stand for the key.
    spec fn paper_key(&self) -> Seq<u8>;

    fn as_paper_key(&self) -> (k: &[u8])
        ensures
            k@ == self.paper_key(),
    ;
}

/// An authentication token.
pub trait AsPaperAuthToken {
    /// The text of the token.
    spec fn paper_auth_token(&self) -> Seq<char>;

    fn as_paper_auth_token(&self) -> (t: &str)
        ensures
            t@ == self.paper_auth_token(),
    ;
}

impl AsPaperKey for &str {
    open spec fn paper_key(&self) -> Seq<u8> {
        encode_utf8((**self)@)
    }

    fn as_paper_key(&self) -> (k: &[u8]) {
        (**self).as_bytes()
    }
}

impl AsPaperKey for String {
    open spec fn paper_key(&self) -> Seq<u8> {
        encode_utf8(self@)
    }

    fn as_paper_key(&self) -> (k: &[u8]) {
        self.as_str().as_bytes()
    }
}

impl AsPaperKey for &String {
    open spec fn paper_key(&self) -> Seq<u8> {
        encode_utf8((**self)@)
    }

    fn as_paper_key(&self) -> (k: &[u8]) {
        (**self).as_str().as_bytes()
    }
}

impl AsPaperKey for &[u8] {
    open spec fn paper_key(&self) -> Seq<u8> {
        (**self)@
    }

    fn as_paper_key(&self) -> (k: &[u8]) {
        *self
    }
}

/// The path for numeric keys that allocates nothing: `client.get(key.to_le_bytes())`
/// borrows an array that lives in the caller's frame.
impl<const N: usize> AsPaperKey for [u8; N] {
    open spec fn paper_key(&self) -> Seq<u8> {
        self@
    }

    fn as_paper_key(&self) -> (k: &[u8]) {
        self.as_slice()
    }
}

impl<const N: usize> AsPaperKey for &[u8; N] {
    open spec fn paper_key(&self) -> Seq<u8> {
        (**self)@
    }

    fn as_paper_key(&self) -> (k: &[u8]) {
        (**self).as_slice()
    }
}

impl AsPaperAuthToken for &str {
    open spec fn paper_auth_token(&self) -> Seq<char> {
        (**self)@
    }

    fn as_paper_auth_token(&self) -> (t: &str) {
        *self
    }
}

impl AsPaperAuthToken for String {
    open spec fn paper_auth_token(&self) -> Seq<char> {
        self@
    }

    fn as_paper_auth_token(&self) -> (t: &str) {
        self.as_str()
    }
}

impl AsPaperAuthToken for &String {
    open spec fn paper_auth_token(&self) -> Seq<char> {
        (**self)@
    }

    fn as_paper_auth_token(&self) -> (t: &str) {
        (**self).as_str()
    }
}

/// What each kind of key and token stands for, whatever its length: a text
/// key is exactly its UTF-8 bytes, a byte key exactly its bytes, and a token
/// exactly its text.
pub proof fn lemma_keys_and_tokens_are_their_contents(text: &str, owned: String, bytes: &[u8])
    ensures
        <&str as AsPaperKey>::paper_key(&text) == encode_utf8(text@),
        <String as AsPaperKey>::paper_key(&owned) == encode_utf8(owned@),
        <&String as AsPaperKey>::paper_key(&&owned) == encode_utf8(owned@),
        <&[u8] as AsPaperKey>::paper_key(&bytes) == bytes@,
        <&str as AsPaperAuthToken>::paper_auth_token(&text) == text@,
        <String as AsPaperAuthToken>::paper_auth_token(&owned) == owned@,
        <&String as AsPaperAuthToken>::paper_auth_token(&&owned) == owned@,
{
}

/// An array key is exactly the array's bytes, by value or by reference.
pub proof fn lemma_array_keys_are_their_bytes<const N: usize>(array: [u8; N])
    ensures
        <[u8; N] as AsPaperKey>::paper_key(&array) == array@,
        <&[u8; N] as AsPaperKey>::paper_key(&&array) == array@,
{
}

} // verus!
