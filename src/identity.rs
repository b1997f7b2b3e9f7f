//! Decoding the device's answer to the identity query.
//!
//! The answer fills a fixed buffer; the text is followed by NUL padding,
//! which is not part of it.

use vstd::prelude::*;
use vstd::utf8::{valid_utf8, decode_utf8};
use crate::error::LoaderError;

verus! {

/// `b` without its trailing NUL bytes.
pub open spec fn spec_trim_padding(b: Seq<u8>) -> Seq<u8>
    decreases b.len(),
{
    if b.len() > 0 && b.last() == 0 {
        spec_trim_padding(b.drop_last())
    } else {
        b
    }
}

/// What the identity query yields for the response bytes `b`.
pub open spec fn spec_identity(b: Seq<u8>) -> Result<Seq<char>, LoaderError> {
    if valid_utf8(spec_trim_padding(b)) {
        Ok(decode_utf8(spec_trim_padding(b)))
    } else {
        Err(LoaderError::ResponseDecodeFailed)
    }
}

/// Relies on std::str::from_utf8: it succeeds exactly on valid UTF-8, and
/// the text then holds the characters those bytes encode.
#[verifier::external_body]
fn utf8_text(bytes: &[u8]) -> (r: Option<String>)
    ensures
        r is Some <==> valid_utf8(bytes@),
        r matches Some(s) ==> s@ == decode_utf8(bytes@),
{
    std::str::from_utf8(bytes).ok().map(String::from)
}

/// Length of `b` once its trailing NUL bytes are dropped.
pub fn text_len(b: &[u8]) -> (r: usize)
    ensures
        r <= b@.len(),
        r == spec_trim_padding(b@).len(),
        spec_trim_padding(b@) == b@.subrange(0, r as int),
{
    let mut n: usize = b.len();
    assert(b@.subrange(0, n as int) =~= b@);
    while n > 0 && b[n - 1] == 0
        invariant
            n <= b@.len(),
            spec_trim_padding(b@) == spec_trim_padding(b@.subrange(0, n as int)),
        decreases n,
    {
        assert(b@.subrange(0, n as int).drop_last() =~= b@.subrange(0, n - 1));
        n = n - 1;
    }
    assert(b@.subrange(0, n as int) == spec_trim_padding(b@.subrange(0, n as int)));
    n
}

/// Decodes the response to the identity query: the bytes up to the
/// trailing padding, read as UTF-8. Bytes that are not text give
/// `ResponseDecodeFailed`.
pub fn decode_identity(resp: &[u8]) -> (r: Result<String, LoaderError>)
    ensures
        r matches Ok(s) ==> spec_identity(resp@) == Ok::<Seq<char>, LoaderError>(s@),
        r is Err ==> r == Err::<String, LoaderError>(LoaderError::ResponseDecodeFailed),
        r is Err <==> spec_identity(resp@) is Err,
{
    let n = text_len(resp);
    let mut text: Vec<u8> = Vec::new();
    let mut i: usize = 0;
    while i < n
        invariant
            n <= resp@.len(),
            i <= n,
            text@ == resp@.subrange(0, i as int),
        decreases n - i,
    {
        text.push(resp[i]);
        i = i + 1;
        assert(text@ =~= resp@.subrange(0, i as int));
    }
    match utf8_text(text.as_slice()) {
        Some(s) => Ok(s),
        None => Err(LoaderError::ResponseDecodeFailed),
    }
}

/// `k` bytes of padding.
pub open spec fn spec_padding(k: nat) -> Seq<u8> {
    Seq::new(k, |i: int| 0u8)
}

/// Trailing padding does not change the text: a response that does not end
/// in NUL trims to itself, whatever padding follows it.
pub proof fn lemma_padding_irrelevant(text: Seq<u8>, k: nat)
    requires
        text.len() == 0 || text.last() != 0,
    ensures
        spec_trim_padding(text + spec_padding(k)) == text,
        spec_identity(text + spec_padding(k)) == spec_identity(text),
    decreases k,
{
    if k == 0 {
        assert(text + spec_padding(0) =~= text);
    } else {
        let b = text + spec_padding(k);
        assert(b.drop_last() =~= text + spec_padding((k - 1) as nat));
        lemma_padding_irrelevant(text, (k - 1) as nat);
    }
}

} // verus!
