//! Text as a database key or value.

use vstd::prelude::*;
use vstd::std_specs::convert::FromSpecImpl;
use vstd::string::*;
use vstd::utf8::*;

verus! {

/// A text suited as a key or a value of a database. As a key it is its
/// UTF-8 bytes.
#[derive(Clone, Debug, PartialOrd, Ord, PartialEq, Eq)]
pub struct DbString(String);

impl View for DbString {
    type V = Seq<char>;

    closed spec fn view(&self) -> Seq<char> {
        self.0@
    }
}

/// Turns bytes into text. Succeeds exactly on valid UTF-8, with the text that
/// the bytes encode; `String::from_utf8` of the standard library decides.
#[verifier::external_body]
fn string_from_utf8(bytes: Vec<u8>) -> (r: Option<String>)
    ensures
        r is Some <==> valid_utf8(bytes@),
        r matches Some(s) ==> s@ == decode_utf8(bytes@),
{
    String::from_utf8(bytes).ok()
}

impl DbString {
    /// The bytes under which the text is stored.
    pub fn as_ref(&self) -> (r: &[u8])
        ensures
            r@ == encode_utf8(self@),
    {
        self.0.as_str().as_bytes()
    }

    /// The text as it is.
    pub fn as_str(&self) -> (r: &str)
        ensures
            r@ == self@,
    {
        self.0.as_str()
    }

    /// The text that key bytes encode, where they are valid UTF-8.
    pub fn from_key_bytes(bytes: &[u8]) -> (r: Option<DbString>)
        ensures
            r is Some <==> valid_utf8(bytes@),
            r matches Some(s) ==> s@ == decode_utf8(bytes@),
    {
        let owned = vstd::slice::slice_to_vec(bytes);
        match string_from_utf8(owned) {
            Some(s) => Some(DbString(s)),
            None => None,
        }
    }

    /// The text that key bytes encode. The bytes are those of a key that was
    /// written by `as_ref`, and so are valid UTF-8.
    pub fn from_key_bytes_or_friendly_panic(bytes: &[u8]) -> (r: DbString)
        requires
            valid_utf8(bytes@),
        ensures
            r@ == decode_utf8(bytes@),
    {
        let owned = vstd::slice::slice_to_vec(bytes);
        match string_from_utf8(owned) {
            Some(s) => DbString(s),
            None => DbString(String::new()),
        }
    }
}

impl<'a> From<&'a str> for DbString {
    fn from(s: &'a str) -> (r: DbString)
        ensures
            r@ == s@,
    {
        DbString(String::from_str(s))
    }
}

impl<'a> FromSpecImpl<&'a str> for DbString {
    /// A text slice is no owned text, so the conversion is stated on the
    /// function itself: the result holds the characters of the slice.
    open spec fn obeys_from_spec() -> bool {
        false
    }

    closed spec fn from_spec(s: &'a str) -> DbString {
        arbitrary()
    }
}

impl From<String> for DbString {
    fn from(s: String) -> (r: DbString)
        ensures
            r@ == s@,
    {
        DbString(s)
    }
}

impl FromSpecImpl<String> for DbString {
    open spec fn obeys_from_spec() -> bool {
        true
    }

    closed spec fn from_spec(s: String) -> DbString {
        DbString(s)
    }
}

/// A key that was written out is read back as the same text.
pub proof fn lemma_key_round_trip(text: Seq<char>)
    ensures
        valid_utf8(encode_utf8(text)),
        decode_utf8(encode_utf8(text)) == text,
{
    encode_utf8_valid_utf8(text);
    encode_utf8_decode_utf8(text);
}

} // verus!
