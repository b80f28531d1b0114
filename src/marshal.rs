use vstd::prelude::*;
use vstd::string::StringSliceAdditionalSpecFns;
use vstd::utf8::{encode_utf8, is_ascii_chars, is_ascii_chars_encode_utf8};

verus! {

/// The bytes handed to the SDK for a string: its UTF-8 encoding followed by a
/// NUL terminator, or `None` when the string holds a NUL of its own.
pub open spec fn c_bytes_of(s: Seq<char>) -> Option<Seq<u8>> {
    if encode_utf8(s).contains(0u8) {
        None
    } else {
        Some(encode_utf8(s).push(0u8))
    }
}

/// A string with an embedded NUL cannot be handed to the SDK.
#[derive(Debug, Clone, Copy, PartialEq, Eq, Structural)]
pub struct EmbeddedNul;

/// Marshals `s` into a NUL-terminated byte string for the SDK.
pub fn to_c_bytes(s: &str) -> (r: Result<Vec<u8>, EmbeddedNul>)
    ensures
        match r {
            Ok(v) => c_bytes_of(s@) == Some(v@),
            Err(_) => c_bytes_of(s@) is None,
        },
{
    let bytes = s.as_bytes();
    let mut out: Vec<u8> = Vec::new();
    let mut i: usize = 0;
    while i < bytes.len()
        invariant
            bytes@ == s.spec_bytes(),
            s.spec_bytes() == encode_utf8(s@),
            i <= bytes@.len(),
            out@ == bytes@.subrange(0, i as int),
            !out@.contains(0u8),
        decreases bytes@.len() - i,
    {
        let b = bytes[i];
        if b == 0 {
            assert(bytes@[i as int] == 0u8);
            return Err(EmbeddedNul);
        }
        out.push(b);
        i = i + 1;
        assert(out@ =~= bytes@.subrange(0, i as int));
    }
    assert(out@ =~= bytes@);
    out.push(0u8);
    Ok(out)
}

/// An ASCII string without NUL reaches the SDK as its own bytes, one per
/// character, followed by a single terminator.
pub proof fn ascii_marshals_verbatim(s: Seq<char>)
    requires
        is_ascii_chars(s),
        !s.contains('\0'),
    ensures
        c_bytes_of(s) == Some(Seq::new(s.len(), |i: int| s[i] as u8).push(0u8)),
{
    is_ascii_chars_encode_utf8(s);
    let b = encode_utf8(s);
    assert(b =~= Seq::new(s.len(), |i: int| s[i] as u8));
    if b.contains(0u8) {
        let k = choose|k: int| 0 <= k < b.len() && b[k] == 0u8;
        assert(s[k] as u8 == 0u8);
        assert('\0' <= s[k] <= '\u{7f}');
        assert(s[k] == '\0');
        assert(s.contains('\0'));
    }
}

} // verus!
