//! Turning a candidate URL into a canonical one: the bytes must be UTF-8, a
//! missing scheme is replaced by the default `https://`, and the result must
//! parse as an absolute URL.
use vstd::prelude::*;
use vstd::utf8::{decode_utf8, is_leading_byte_width_1, partial_valid_utf8, valid_utf8};
use vstd::utf8::{partial_valid_utf8_extend_ascii_block, valid_utf8_concat};

use crate::error::Error;

verus! {

/// The text of the error that UTF-8 decoding reports for invalid bytes.
pub uninterp spec fn utf8_error_text(b: Seq<u8>) -> Seq<char>;

/// What URL parsing makes of a text: the URL's serialization, or the text of
/// the parse error.
pub uninterp spec fn url_parse_outcome(text: Seq<char>) -> Result<Seq<char>, Seq<char>>;

/// Relies on `std::str::from_utf8`: it accepts exactly the valid UTF-8 byte
/// sequences and returns the text they encode; the error's text depends on
/// the bytes alone.
#[verifier::external_body]
pub(crate) fn decode_text(b: &[u8]) -> (r: Result<&str, String>)
    ensures
        r is Ok <==> valid_utf8(b@),
        r is Ok ==> r->Ok_0@ == decode_utf8(b@),
        r is Err ==> r->Err_0@ == utf8_error_text(b@),
{
    match std::str::from_utf8(b) {
        Ok(s) => Ok(s),
        Err(e) => Err(e.to_string()),
    }
}

/// Relies on `url::Url::parse`: on success the URL's serialization
/// (`Url::as_str`), on failure the text of its `ParseError`; both depend on the
/// input text alone.
#[verifier::external_body]
pub(crate) fn parse_url(text: &str) -> (r: Result<String, String>)
    ensures
        r is Ok ==> url_parse_outcome(text@) == Ok::<Seq<char>, Seq<char>>(r->Ok_0@),
        r is Err ==> url_parse_outcome(text@) == Err::<Seq<char>, Seq<char>>(r->Err_0@),
{
    match url::Url::parse(text) {
        Ok(u) => Ok(String::from(u)),
        Err(e) => Err(e.to_string()),
    }
}

/// The bytes of `http://` (ASCII `h t t p : / /`).
pub open spec fn http_prefix() -> Seq<u8> {
    seq![0x68u8, 0x74, 0x74, 0x70, 0x3a, 0x2f, 0x2f]
}

/// The bytes of `https://` (ASCII `h t t p s : / /`), also the scheme given to URLs that lack one.
pub open spec fn https_prefix() -> Seq<u8> {
    seq![0x68u8, 0x74, 0x74, 0x70, 0x73, 0x3a, 0x2f, 0x2f]
}

pub open spec fn starts_with(b: Seq<u8>, prefix: Seq<u8>) -> bool {
    prefix.len() <= b.len() && b.subrange(0, prefix.len() as int) == prefix
}

/// Whether the bytes already begin with `http://` or `https://`.
pub open spec fn has_scheme(b: Seq<u8>) -> bool {
    starts_with(b, http_prefix()) || starts_with(b, https_prefix())
}

/// The text that is validated: the input itself when it has a scheme, else the
/// input behind the default scheme.
pub open spec fn candidate(b: Seq<u8>) -> Seq<u8> {
    if has_scheme(b) {
        b
    } else {
        https_prefix() + b
    }
}

/// Whether normalization accepts the bytes.
pub open spec fn normalizes(b: Seq<u8>) -> bool {
    valid_utf8(b) && url_parse_outcome(decode_utf8(candidate(b))) is Ok
}

proof fn lemma_https_prefix_valid()
    ensures
        valid_utf8(https_prefix()),
{
    let p = https_prefix();
    assert(p.subrange(0, 0) =~= Seq::<u8>::empty());
    assert(forall|i: int| 0 <= i < 8 ==> #[trigger] is_leading_byte_width_1(p[i]));
    partial_valid_utf8_extend_ascii_block(p, 0, 8);
    assert(partial_valid_utf8(p, 8));
    assert(p.subrange(0, 8) =~= p);
}

fn bytes_start_with(b: &[u8], prefix: &Vec<u8>) -> (r: bool)
    ensures
        r == starts_with(b@, prefix@),
{
    if prefix.len() > b.len() {
        return false;
    }
    let mut i: usize = 0;
    while i < prefix.len()
        invariant
            prefix@.len() <= b@.len(),
            i <= prefix@.len(),
            forall|j: int| 0 <= j < i ==> b@[j] == prefix@[j],
        decreases prefix@.len() - i,
    {
        if b[i] != prefix[i] {
            return false;
        }
        i = i + 1;
    }
    assert(b@.subrange(0, prefix@.len() as int) =~= prefix@);
    true
}

/// Normalizes a candidate URL: fails with `BadUrl` on invalid UTF-8, prefixes
/// `https://` when neither `http://` nor `https://` begins the input, and
/// fails with `BadUrl` when the result does not parse as an absolute URL.
pub fn clean_url(url: &[u8]) -> (r: Result<Vec<u8>, Error>)
    ensures
        r is Ok <==> normalizes(url@),
        r matches Ok(v) ==> v@ == candidate(url@),
        has_scheme(url@) ==> (r matches Ok(v) ==> v@ == url@),
        !has_scheme(url@) ==> (r matches Ok(v) ==> v@ == https_prefix() + url@),
        r matches Ok(v) ==> has_scheme(v@) && valid_utf8(v@)
            && url_parse_outcome(decode_utf8(v@)) is Ok,
        !valid_utf8(url@) ==> (r matches Err(Error::BadUrl(m)) && m@ == utf8_error_text(url@)),
        valid_utf8(url@) ==> (r matches Err(e) ==> (e matches Error::BadUrl(m)
            && url_parse_outcome(decode_utf8(candidate(url@))) == Err::<Seq<char>, Seq<char>>(m@))),
{
    match decode_text(url) {
        Err(m) => {
            return Err(Error::BadUrl(m));
        },
        Ok(_) => {},
    }
    let http: Vec<u8> = vec![0x68u8, 0x74, 0x74, 0x70, 0x3a, 0x2f, 0x2f];
    let https: Vec<u8> = vec![0x68u8, 0x74, 0x74, 0x70, 0x73, 0x3a, 0x2f, 0x2f];
    assert(http@ =~= http_prefix());
    assert(https@ =~= https_prefix());
    let with_scheme = bytes_start_with(url, &http) || bytes_start_with(url, &https);
    let mut out: Vec<u8> = Vec::new();
    if !with_scheme {
        out = https;
    }
    let ghost start = out@;
    let mut i: usize = 0;
    while i < url.len()
        invariant
            i <= url@.len(),
            out@ == start + url@.subrange(0, i as int),
        decreases url@.len() - i,
    {
        out.push(url[i]);
        i = i + 1;
        assert(out@ =~= start + url@.subrange(0, i as int));
    }
    assert(url@.subrange(0, url@.len() as int) =~= url@);
    assert(out@ == candidate(url@)) by {
        if !with_scheme {
            assert(start == https_prefix());
        } else {
            assert(start =~= Seq::<u8>::empty());
            assert(out@ =~= url@);
        }
    }
    proof {
        lemma_https_prefix_valid();
        valid_utf8_concat(https_prefix(), url@);
        assert(starts_with(https_prefix() + url@, https_prefix())) by {
            assert((https_prefix() + url@).subrange(0, 8) =~= https_prefix());
        }
    }
    let text = match decode_text(out.as_slice()) {
        Ok(t) => t,
        Err(m) => {
            return Err(Error::BadUrl(m));
        },
    };
    match parse_url(text) {
        Ok(_) => Ok(out),
        Err(m) => Err(Error::BadUrl(m)),
    }
}

} // verus!
