//! Overwriting buffers that held secret material before they are released.
use vstd::prelude::*;
use zeroize::Zeroize;

verus! {

/// Relies on `<Vec<u8> as zeroize::Zeroize>::zeroize`: every byte and the
/// spare capacity are overwritten with zeros, then the vector is cleared.
#[verifier::external_body]
pub fn wipe_bytes(b: &mut Vec<u8>)
    ensures
        final(b)@.len() == 0,
{
    b.zeroize();
}

/// Relies on `<Vec<char> as zeroize::Zeroize>::zeroize`: every character and
/// the spare capacity are overwritten, then the vector is cleared.
#[verifier::external_body]
pub fn wipe_chars(c: &mut Vec<char>)
    ensures
        final(c)@.len() == 0,
{
    c.zeroize();
}

/// Relies on `<String as zeroize::Zeroize>::zeroize`: the bytes of the string
/// are overwritten with zeros, then it is truncated to the empty string.
#[verifier::external_body]
pub fn wipe_text(s: &mut String)
    ensures
        final(s)@.len() == 0,
{
    s.zeroize();
}

/// Overwrites each token, then empties the list.
pub fn wipe_tokens(tokens: &mut Vec<String>)
    ensures
        final(tokens)@.len() == 0,
{
    let n = tokens.len();
    let mut i: usize = 0;
    while i < n
        invariant
            tokens@.len() == n,
        decreases n - i,
    {
        let mut t = String::new();
        std::mem::swap(&mut t, &mut tokens[i]);
        wipe_text(&mut t);
        i = i + 1;
    }
    tokens.clear();
}

} // verus!
