//! Text reported by the runtimes as raw bytes.

use vstd::prelude::*;

verus! {

/// What `String::from_utf8_lossy` makes of a byte sequence: each valid
/// UTF-8 sequence becomes its character and each invalid one the
/// replacement character.
pub uninterp spec fn utf8_lossy(bytes: Seq<u8>) -> Seq<char>;

/// Whether every byte is ASCII.
pub open spec fn all_ascii(bytes: Seq<u8>) -> bool {
    forall|i: int| 0 <= i < bytes.len() ==> bytes[i] < 128
}

/// The characters of ASCII bytes, one for each byte.
pub open spec fn ascii_chars(bytes: Seq<u8>) -> Seq<char> {
    bytes.map_values(|b: u8| b as char)
}

/// Calls `String::from_utf8_lossy` and takes the owned string. Its result is
/// named by `utf8_lossy`; the one fact stated of it is the one its
/// documentation gives for valid UTF-8, here ASCII: the text is those
/// characters unchanged.
#[verifier::external_body]
pub(crate) fn decode_lossy(bytes: &[u8]) -> (s: String)
    ensures
        s@ == utf8_lossy(bytes@),
        all_ascii(bytes@) ==> s@ == ascii_chars(bytes@),
{
    String::from_utf8_lossy(bytes).into_owned()
}

/// The bytes without the zero bytes at their end.
pub open spec fn trim_trailing_zeros(bytes: Seq<u8>) -> Seq<u8>
    decreases bytes.len(),
{
    if bytes.len() > 0 && bytes.last() == 0 {
        trim_trailing_zeros(bytes.drop_last())
    } else {
        bytes
    }
}

/// The length of `bytes` once its trailing zero bytes are removed.
fn trimmed_len(bytes: &[u8]) -> (n: usize)
    ensures
        n <= bytes@.len(),
        trim_trailing_zeros(bytes@) == bytes@.take(n as int),
{
    let mut n = bytes.len();
    assert(bytes@.take(n as int) =~= bytes@);
    while n > 0 && bytes[n - 1] == 0
        invariant
            n <= bytes@.len(),
            trim_trailing_zeros(bytes@) == trim_trailing_zeros(bytes@.take(n as int)),
        decreases n,
    {
        assert(bytes@.take(n as int).drop_last() =~= bytes@.take(n - 1));
        n = n - 1;
    }
    n
}

/// The text of a byte buffer that the runtime padded with zero bytes: the
/// trailing zero bytes are dropped and the rest is decoded lossily.
///
/// Dropping the zero bytes before decoding gives the text that decoding and
/// then dropping trailing `'\0'` characters gives, since a zero byte is
/// never part of a longer UTF-8 sequence and decodes to `'\0'` alone.
pub fn text_without_trailing_nuls(bytes: &[u8]) -> (s: String)
    ensures
        s@ == utf8_lossy(trim_trailing_zeros(bytes@)),
        all_ascii(bytes@) ==> s@ == ascii_chars(trim_trailing_zeros(bytes@)),
{
    let n = trimmed_len(bytes);
    let mut kept: Vec<u8> = Vec::new();
    for i in 0..n
        invariant
            n <= bytes@.len(),
            kept@ == bytes@.take(i as int),
    {
        kept.push(bytes[i]);
        assert(bytes@.take(i as int).push(bytes@[i as int]) =~= bytes@.take(i + 1));
    }
    assert(kept@ =~= trim_trailing_zeros(bytes@));
    decode_lossy(kept.as_slice())
}

/// The text of a C string the runtime handed over: empty for a null
/// string, otherwise its bytes (without the terminator) decoded lossily.
pub fn c_string_text(bytes: Option<&[u8]>) -> (s: String)
    ensures
        bytes is None ==> s@.len() == 0,
        bytes matches Some(b) ==> s@ == utf8_lossy(b@),
        bytes matches Some(b) ==> (all_ascii(b@) ==> s@ == ascii_chars(b@)),
{
    match bytes {
        None => String::new(),
        Some(b) => decode_lossy(b),
    }
}

} // verus!
