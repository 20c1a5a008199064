//! Validation of a user-supplied secret and its textual storage form.
use vstd::prelude::*;
use vstd::string::StrSliceExecFns;
use totp_rs::Secret;
use crate::scrub::{wipe_chars, wipe_text, wipe_tokens};

verus! {

/// The secret text could not be decoded: a character outside the upper-case
/// base-32 alphabet, padding included.
#[derive(Debug, Clone, Copy, PartialEq, Eq, Structural)]
pub struct InvalidSecret;

/// What `totp_rs` decodes from base-32 text (RFC 4648 alphabet, unpadded),
/// or `None` where the text is not valid base-32.
pub uninterp spec fn base32_decoded(text: Seq<char>) -> Option<Seq<u8>>;

/// The base-32 text (RFC 4648 alphabet, without padding) that `totp_rs`
/// produces for raw bytes.
pub uninterp spec fn base32_encoded(raw: Seq<u8>) -> Seq<char>;

/// A character of the upper-case RFC 4648 base-32 alphabet.
pub open spec fn is_base32_char(c: char) -> bool {
    ('A' <= c <= 'Z') || ('2' <= c <= '7')
}

/// Text made only of base-32 characters: no padding, no white space.
pub open spec fn is_base32_text(s: Seq<char>) -> bool {
    forall|i: int| 0 <= i < s.len() ==> is_base32_char(#[trigger] s[i])
}

/// The characters that carry the Unicode `White_Space` property.
pub open spec fn is_white_space(c: char) -> bool {
    let v = c as u32;
    (0x09 <= v <= 0x0d) || v == 0x20 || v == 0x85 || v == 0xa0 || v == 0x1680
        || (0x2000 <= v <= 0x200a) || v == 0x2028 || v == 0x2029 || v == 0x202f
        || v == 0x205f || v == 0x3000
}

/// `s` with every white-space character removed, the rest in order.
pub open spec fn strip_white_space(s: Seq<char>) -> Seq<char>
    decreases s.len(),
{
    if s.len() == 0 {
        s
    } else {
        let rest = strip_white_space(s.drop_last());
        if is_white_space(s.last()) {
            rest
        } else {
            rest.push(s.last())
        }
    }
}

/// The tokens written one after the other.
pub open spec fn concat_tokens(tokens: Seq<String>) -> Seq<char>
    decreases tokens.len(),
{
    if tokens.len() == 0 {
        Seq::empty()
    } else {
        concat_tokens(tokens.drop_last()) + tokens.last()@
    }
}

/// The text that a token list stands for: all tokens joined, white space removed.
pub open spec fn secret_text(tokens: Seq<String>) -> Seq<char> {
    strip_white_space(concat_tokens(tokens))
}

/// `r` is what decoding `text` gives: the bytes, or `InvalidSecret`.
pub open spec fn decodes_to(r: Result<Vec<u8>, InvalidSecret>, text: Seq<char>) -> bool {
    match r {
        Ok(b) => base32_decoded(text) == Some(b@),
        Err(_) => base32_decoded(text) is None,
    }
}

/// Relies on `char::is_whitespace`, which tests the Unicode `White_Space` property.
#[verifier::external_body]
fn is_white(c: char) -> (r: bool)
    ensures
        r == is_white_space(c),
{
    c.is_whitespace()
}

/// Relies on `totp_rs::Secret::to_bytes` of an encoded secret, which decodes
/// base-32 text and fails on any character outside the upper-case alphabet,
/// `=` included.
#[verifier::external_body]
fn decode_base32(text: &Vec<char>) -> (r: Option<Vec<u8>>)
    ensures
        match r {
            Some(b) => base32_decoded(text@) == Some(b@),
            None => base32_decoded(text@) is None,
        },
        r is Some ==> is_base32_text(text@),
{
    Secret::Encoded(text.iter().collect()).to_bytes().ok()
}

/// Relies on `totp_rs::Secret::to_encoded` of raw bytes and its `Display`,
/// which encode base-32 without padding, in the upper-case alphabet; decoding
/// that text gives the bytes back.
#[verifier::external_body]
fn encode_base32(raw: &Vec<u8>) -> (r: String)
    ensures
        r@ == base32_encoded(raw@),
        is_base32_text(r@),
        base32_decoded(r@) == Some(raw@),
{
    Secret::Raw(raw.clone()).to_encoded().to_string()
}

/// Removing white space from a concatenation removes it from each part.
pub proof fn lemma_strip_append(a: Seq<char>, b: Seq<char>)
    ensures
        strip_white_space(a + b) == strip_white_space(a) + strip_white_space(b),
    decreases b.len(),
{
    if b.len() == 0 {
        assert(a + b =~= a);
        assert(strip_white_space(a) + strip_white_space(b) =~= strip_white_space(a));
    } else {
        lemma_strip_append(a, b.drop_last());
        assert((a + b).drop_last() =~= a + b.drop_last());
        assert((a + b).last() == b.last());
        if !is_white_space(b.last()) {
            assert(strip_white_space(a) + strip_white_space(b.drop_last()).push(b.last())
                =~= (strip_white_space(a) + strip_white_space(b.drop_last())).push(b.last()));
        }
    }
}

/// Appends the characters of `s` that are not white space to `out`.
fn push_non_white(out: &mut Vec<char>, s: &str)
    ensures
        final(out)@ == old(out)@ + strip_white_space(s@),
{
    let n = s.unicode_len();
    let mut j: usize = 0;
    while j < n
        invariant
            n == s@.len(),
            j <= n,
            out@ == old(out)@ + strip_white_space(s@.take(j as int)),
        decreases n - j,
    {
        let c = s.get_char(j);
        assert(s@.take(j + 1).drop_last() =~= s@.take(j as int));
        if !is_white(c) {
            out.push(c);
            assert(old(out)@ + strip_white_space(s@.take(j as int)).push(c)
                =~= (old(out)@ + strip_white_space(s@.take(j as int))).push(c));
        }
        j = j + 1;
    }
    assert(s@.take(n as int) =~= s@);
}

/// Joins the tokens, drops all white space and decodes the result as a
/// base-32 secret.
///
/// The tokens are overwritten and removed whatever the outcome, and so is
/// every intermediate copy of the text.
pub fn validate(tokens: &mut Vec<String>) -> (r: Result<Vec<u8>, InvalidSecret>)
    ensures
        decodes_to(r, secret_text(old(tokens)@)),
        r is Ok ==> is_base32_text(secret_text(old(tokens)@)),
        final(tokens)@.len() == 0,
{
    let mut text: Vec<char> = Vec::new();
    let n = tokens.len();
    let mut i: usize = 0;
    while i < n
        invariant
            tokens@ == old(tokens)@,
            n == tokens@.len(),
            i <= n,
            text@ == strip_white_space(concat_tokens(tokens@.take(i as int))),
        decreases n - i,
    {
        proof {
            assert(tokens@.take(i + 1).drop_last() =~= tokens@.take(i as int));
            lemma_strip_append(concat_tokens(tokens@.take(i as int)), tokens@[i as int]@);
        }
        push_non_white(&mut text, tokens[i].as_str());
        i = i + 1;
    }
    assert(tokens@.take(n as int) =~= tokens@);
    let decoded = decode_base32(&text);
    wipe_chars(&mut text);
    wipe_tokens(tokens);
    match decoded {
        Some(b) => Ok(b),
        None => Err(InvalidSecret),
    }
}

/// Encodes raw secret bytes into the text kept in the credential store, then
/// overwrites the raw bytes. Decoding the text gives the bytes back.
pub fn to_storage_form(secret: &mut Vec<u8>) -> (r: String)
    ensures
        r@ == base32_encoded(old(secret)@),
        is_base32_text(r@),
        base32_decoded(r@) == Some(old(secret)@),
        final(secret)@.len() == 0,
{
    let text = encode_base32(secret);
    crate::scrub::wipe_bytes(secret);
    text
}

/// Decodes the text kept in the credential store into raw secret bytes, then
/// overwrites the text.
pub fn from_storage_form(text: &mut String) -> (r: Result<Vec<u8>, InvalidSecret>)
    ensures
        decodes_to(r, old(text)@),
        r is Ok ==> is_base32_text(old(text)@),
        final(text)@.len() == 0,
{
    let mut chars: Vec<char> = Vec::new();
    let n = text.as_str().unicode_len();
    let mut j: usize = 0;
    while j < n
        invariant
            n == text@.len(),
            j <= n,
            chars@ == text@.take(j as int),
        decreases n - j,
    {
        let c = text.as_str().get_char(j);
        chars.push(c);
        assert(chars@ =~= text@.take(j + 1));
        j = j + 1;
    }
    assert(chars@ =~= text@);
    let decoded = decode_base32(&chars);
    wipe_chars(&mut chars);
    wipe_text(text);
    match decoded {
        Some(b) => Ok(b),
        None => Err(InvalidSecret),
    }
}

/// The text to keep in the credential store for a secret given as tokens:
/// validated, then re-encoded. Decoding the stored text gives exactly the
/// bytes that validation decoded. The tokens and the raw bytes are
/// overwritten whatever the outcome.
pub fn storable_secret(tokens: &mut Vec<String>) -> (r: Result<String, InvalidSecret>)
    ensures
        r is Ok <==> base32_decoded(secret_text(old(tokens)@)) is Some,
        r matches Ok(t) ==> base32_decoded(t@) == base32_decoded(secret_text(old(tokens)@)),
        r matches Ok(t) ==> t@ == base32_encoded(base32_decoded(secret_text(old(tokens)@))->Some_0),
        r matches Ok(t) ==> is_base32_text(t@),
        final(tokens)@.len() == 0,
{
    match validate(tokens) {
        Ok(raw) => {
            let mut raw = raw;
            Ok(to_storage_form(&mut raw))
        },
        Err(e) => Err(e),
    }
}

/// Base-32 text holds no white space, so stripping leaves it as it is.
pub proof fn lemma_strip_base32_text(s: Seq<char>)
    requires
        is_base32_text(s),
    ensures
        strip_white_space(s) == s,
    decreases s.len(),
{
    if s.len() > 0 {
        assert(is_base32_text(s.drop_last()));
        lemma_strip_base32_text(s.drop_last());
        assert(s.drop_last().push(s.last()) =~= s);
    }
}

/// The storage form is canonical: saving a stored text again, as a single
/// token, decodes to the same bytes and stores exactly the same text.
pub proof fn storage_form_is_canonical(stored: String, raw: Seq<u8>)
    requires
        stored@ == base32_encoded(raw),
        is_base32_text(stored@),
        base32_decoded(stored@) == Some(raw),
    ensures
        base32_decoded(secret_text(seq![stored])) == Some(raw),
        base32_encoded(base32_decoded(secret_text(seq![stored]))->Some_0) == stored@,
{
    let ts = seq![stored];
    assert(ts.drop_last() =~= Seq::<String>::empty());
    assert(ts.last() == stored);
    assert(concat_tokens(ts.drop_last()) == Seq::<char>::empty());
    assert(Seq::<char>::empty() + stored@ =~= stored@);
    assert(concat_tokens(ts) == stored@);
    lemma_strip_base32_text(stored@);
}

} // verus!
