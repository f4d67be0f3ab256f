use vstd::prelude::*;
use vstd::string::{StrSliceExecFns, StringSliceAdditionalSpecFns};
use vstd::utf8::{decode_utf8, valid_utf8};

verus! {

/// What `String::from_utf8_lossy` makes of a byte sequence: its UTF-8
/// decoding, with each malformed run replaced by U+FFFD.
pub uninterp spec fn lossy_text(bytes: Seq<u8>) -> Seq<char>;

/// The null-terminated form of a text: its UTF-8 bytes, then a zero byte.
pub open spec fn null_terminated(s: &str) -> Seq<u8> {
    s.spec_bytes().push(0u8)
}

/// Relies on `String::from_utf8_lossy`: the bytes decoded as UTF-8, and
/// exactly their decoding where they are valid UTF-8.
#[verifier::external_body]
fn from_utf8_lossy(bytes: &[u8]) -> (r: String)
    ensures
        r@ == lossy_text(bytes@),
        valid_utf8(bytes@) ==> r@ == decode_utf8(bytes@),
{
    String::from_utf8_lossy(bytes).into_owned()
}

/// Marshals a text for the native side: its bytes followed by a zero byte.
///
/// A text that holds a zero byte of its own cannot be passed as a
/// null-terminated string without being cut short, so it is refused.
pub fn c_string(s: &str) -> (r: Option<Vec<u8>>)
    ensures
        r is None <==> s.spec_bytes().contains(0u8),
        r matches Some(v) ==> v@ == null_terminated(s),
{
    let mut bytes = s.as_bytes_vec();
    let mut i: usize = 0;
    while i < bytes.len()
        invariant
            bytes@ == s.spec_bytes(),
            i <= bytes@.len(),
            forall|j: int| 0 <= j < i ==> bytes@[j] != 0u8,
        decreases bytes@.len() - i,
    {
        if bytes[i] == 0u8 {
            assert(s.spec_bytes()[i as int] == 0u8);
            return None;
        }
        i = i + 1;
    }
    bytes.push(0u8);
    Some(bytes)
}

/// Marshals a string returned by the native side back into text.
///
/// `raw` is `None` where the native side returned a null pointer, and
/// otherwise the bytes before the terminating zero. A null pointer is no
/// value; any bytes are decoded, invalid UTF-8 replaced rather than refused.
pub fn native_text(raw: Option<&[u8]>) -> (r: Option<String>)
    ensures
        r is None <==> raw is None,
        r matches Some(t) ==> t@ == lossy_text(raw->0@),
        r matches Some(t) ==> valid_utf8(raw->0@) ==> t@ == decode_utf8(raw->0@),
{
    match raw {
        None => None,
        Some(bytes) => Some(from_utf8_lossy(bytes)),
    }
}

/// Whether a native status code reports success: zero does, any other
/// value is a failure.
pub fn succeeded(code: i32) -> (r: bool)
    ensures
        r == (code == 0),
{
    code == 0
}

} // verus!
