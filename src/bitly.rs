//! The bit.ly client: the requests that each operation sends, and the mapping
//! of each reply onto the operation's result.
use vstd::prelude::*;
use vstd::string::{StringExecFns, StringSliceAdditionalSpecFns};
use vstd::utf8::{decode_utf8, encode_utf8_valid_utf8};

use crate::error::{message_of, Error};
use crate::normalize::{candidate, clean_url, decode_text, normalizes, parse_url, url_parse_outcome};

verus! {

/// A client of the bit.ly v4 API.
pub struct Shortener {
    /// Request timeout, in seconds.
    pub timeout: u32,
    /// Whether TLS certificates are verified.
    pub verify: bool,
    /// The base endpoint of the API.
    pub api_url: String,
    /// The bearer credential sent with every API request.
    pub api_key: String,
}

/// The HTTP method of a request.
#[derive(Debug, Clone, Copy, PartialEq, Eq)]
pub enum HttpMethod {
    Get,
    Post,
}

/// A one-field JSON object, `{"<name>": "<value>"}`.
#[derive(Debug, Clone, PartialEq, Eq)]
pub struct JsonField {
    pub name: String,
    pub value: String,
}

/// A request to be sent: where, how, with which credential and which body.
#[derive(Debug, Clone, PartialEq, Eq)]
pub struct ApiRequest {
    pub method: HttpMethod,
    pub url: String,
    /// The value of the `Authorization` header, if any.
    pub authorization: Option<String>,
    /// The JSON body, if any.
    pub body: Option<JsonField>,
}

/// What came back for a request whose reply body is decoded into a `T`.
#[derive(Debug, Clone, PartialEq, Eq)]
pub enum Reply<T> {
    /// The request could not be sent, or no response arrived.
    TransportFailed(String),
    /// A response arrived, but its body did not decode into the expected shape.
    BodyRejected(String),
    /// The decoded body.
    Received(T),
}

/// The record that the shorten and expand endpoints return.
#[derive(Debug, Clone, PartialEq, Eq)]
pub struct LinkRecord {
    pub created_at: String,
    pub id: String,
    /// The short link.
    pub link: String,
    /// The long URL that the short link leads to.
    pub long_url: String,
}

/// The clicks of one day.
#[derive(Debug, Clone, PartialEq, Eq)]
pub struct LinkClicks {
    pub clicks: u32,
    pub date: String,
}

/// The click counts of a link, per unit of time.
#[derive(Debug, Clone, PartialEq, Eq)]
pub struct Clicks {
    pub link_clicks: Vec<LinkClicks>,
    pub units: i32,
    pub unit: String,
    pub unit_reference: String,
}

/// The value of the `Authorization` header for a credential.
pub open spec fn bearer(key: Seq<char>) -> Seq<char> {
    "Bearer "@ + key
}

/// Whether a request is an authenticated POST of `{"<name>": <value>}` to `url`.
pub open spec fn is_json_post(q: ApiRequest, url: Seq<char>, key: Seq<char>, name: Seq<char>, value: Seq<char>) -> bool {
    &&& q.method == HttpMethod::Post
    &&& q.url@ == url
    &&& q.authorization matches Some(a) && a@ == bearer(key)
    &&& q.body matches Some(f) && f.name@ == name && f.value@ == value
}

/// The text of a URL after normalization.
pub open spec fn normalized_text(url: &str) -> Seq<char> {
    decode_utf8(candidate(url.spec_bytes()))
}

/// What the clicks endpoint's reply yields: the per-day counts, or a
/// `ResponseError`.
pub open spec fn clicks_outcome(reply: Reply<Clicks>) -> Result<Vec<LinkClicks>, Error> {
    match reply {
        Reply::TransportFailed(m) => Err(Error::ResponseError(m)),
        Reply::BodyRejected(m) => Err(Error::ResponseError(m)),
        Reply::Received(c) => Ok(c.link_clicks),
    }
}

/// The sum of the `clicks` fields.
pub open spec fn clicks_sum(s: Seq<LinkClicks>) -> nat
    decreases s.len(),
{
    if s.len() == 0 {
        0
    } else {
        clicks_sum(s.drop_last()) + s.last().clicks as nat
    }
}

/// The total of a listing: the sum of its clicks, or the listing's error.
pub open spec fn listed_total(listed: Result<Vec<LinkClicks>, Error>) -> Result<nat, Error> {
    match listed {
        Ok(v) => Ok(clicks_sum(v@)),
        Err(e) => Err(e),
    }
}

impl Shortener {
    /// A client with a two-second timeout, certificate verification, the
    /// public bit.ly v4 endpoint and the given credential.
    pub fn new(api_key: String) -> (s: Self)
        ensures
            s.timeout == 2,
            s.verify,
            s.api_url@ == "https://api-ssl.bit.ly/v4"@,
            s.api_key == api_key,
    {
        Shortener { timeout: 2, verify: true, api_url: String::from_str("https://api-ssl.bit.ly/v4"), api_key }
    }

    /// Normalizes a candidate URL (see `normalize::clean_url`).
    pub fn clean_url(&self, url: Vec<u8>) -> (r: Result<Vec<u8>, Error>)
        ensures
            r is Ok <==> normalizes(url@),
            r matches Ok(v) ==> v@ == candidate(url@),
            r is Err ==> r->Err_0 is BadUrl,
    {
        clean_url(url.as_slice())
    }

    fn authorization(&self) -> (r: String)
        ensures
            r@ == bearer(self.api_key@),
    {
        String::from_str("Bearer ").concat(self.api_key.as_str())
    }

    fn endpoint(&self, path: &str) -> (r: String)
        ensures
            r@ == self.api_url@ + path@,
    {
        self.api_url.clone().concat(path)
    }

    /// The request that shortens `url`: its normalized text, posted as
    /// `{"long_url": ...}` to `/shorten` with the bearer credential. Fails with
    /// `BadUrl` exactly when `url` does not normalize.
    pub fn shorten_request(&self, url: &str) -> (r: Result<ApiRequest, Error>)
        ensures
            r is Ok <==> normalizes(url.spec_bytes()),
            r matches Ok(q) ==> is_json_post(q, self.api_url@ + "/shorten"@, self.api_key@,
                "long_url"@, normalized_text(url)),
            r matches Err(e) ==> e matches Error::BadUrl(m)
                && url_parse_outcome(normalized_text(url)) == Err::<Seq<char>, Seq<char>>(m@),
    {
        proof {
            encode_utf8_valid_utf8(url@);
        }
        let cleaned = match clean_url(url.as_bytes()) {
            Ok(v) => v,
            Err(e) => {
                return Err(e);
            },
        };
        let text = match decode_text(cleaned.as_slice()) {
            Ok(t) => t,
            Err(m) => {
                return Err(Error::BadUrl(m));
            },
        };
        Ok(ApiRequest {
            method: HttpMethod::Post,
            url: self.endpoint("/shorten"),
            authorization: Some(self.authorization()),
            body: Some(JsonField { name: String::from_str("long_url"), value: String::from_str(text) }),
        })
    }

    /// The request that expands the bitlink `id` through the API: posted as
    /// `{"bitlink_id": id}` to `/expand` with the bearer credential.
    pub fn expand_request(&self, id: &str) -> (q: ApiRequest)
        ensures
            is_json_post(q, self.api_url@ + "/expand"@, self.api_key@, "bitlink_id"@, id@),
    {
        ApiRequest {
            method: HttpMethod::Post,
            url: self.endpoint("/expand"),
            authorization: Some(self.authorization()),
            body: Some(JsonField { name: String::from_str("bitlink_id"), value: String::from_str(id) }),
        }
    }

    /// The request that reads the click counts of the bitlink `id`: an
    /// authenticated GET of `/bitlinks/<id>/clicks`.
    pub fn link_clicks_request(&self, id: &str) -> (q: ApiRequest)
        ensures
            q.method == HttpMethod::Get,
            q.url@ == self.api_url@ + "/bitlinks/"@ + id@ + "/clicks"@,
            q.authorization matches Some(a) && a@ == bearer(self.api_key@),
            q.body is None,
    {
        let url = self.endpoint("/bitlinks/").concat(id).concat("/clicks");
        ApiRequest { method: HttpMethod::Get, url, authorization: Some(self.authorization()), body: None }
    }
}

/// The request of a redirect-following expand: a plain GET of the normalized
/// short link, without credential. Fails with `BadUrl` exactly when `url` does
/// not normalize.
pub fn redirect_request(url: &str) -> (r: Result<ApiRequest, Error>)
    ensures
        r is Ok <==> normalizes(url.spec_bytes()),
        r matches Ok(q) ==> q.method == HttpMethod::Get && q.url@ == normalized_text(url)
            && q.authorization is None && q.body is None,
        r matches Err(e) ==> e matches Error::BadUrl(m)
            && url_parse_outcome(normalized_text(url)) == Err::<Seq<char>, Seq<char>>(m@),
{
    proof {
        encode_utf8_valid_utf8(url@);
    }
    let cleaned = match clean_url(url.as_bytes()) {
        Ok(v) => v,
        Err(e) => {
            return Err(e);
        },
    };
    let text = match decode_text(cleaned.as_slice()) {
        Ok(t) => t,
        Err(m) => {
            return Err(Error::BadUrl(m));
        },
    };
    Ok(ApiRequest { method: HttpMethod::Get, url: String::from_str(text), authorization: None, body: None })
}

/// Parses a URL that a reply returned: its serialization, or `BadUrl` with the
/// parser's message.
fn returned_url(text: &String) -> (r: Result<String, Error>)
    ensures
        url_parse_outcome(text@) matches Ok(s) ==> r matches Ok(t) && t@ == s,
        url_parse_outcome(text@) matches Err(s) ==> r matches Err(Error::BadUrl(m)) && m@ == s,
{
    match parse_url(text.as_str()) {
        Ok(s) => Ok(s),
        Err(m) => Err(Error::BadUrl(m)),
    }
}

/// The result of shorten for its reply: the parsed short link, `ShortenError`
/// when the transport failed, `ResponseError` when the body did not decode, and
/// `BadUrl` when the returned link does not parse.
pub fn shorten_result(reply: Reply<LinkRecord>) -> (r: Result<String, Error>)
    ensures
        reply matches Reply::TransportFailed(m) ==> r == Err::<String, Error>(Error::ShortenError(m)),
        reply matches Reply::BodyRejected(m) ==> r == Err::<String, Error>(Error::ResponseError(m)),
        reply matches Reply::Received(rec) ==> (url_parse_outcome(rec.link@) matches Ok(s)
            ==> r matches Ok(t) && t@ == s),
        reply matches Reply::Received(rec) ==> (url_parse_outcome(rec.link@) matches Err(s)
            ==> r matches Err(Error::BadUrl(m)) && m@ == s),
{
    match reply {
        Reply::TransportFailed(m) => Err(Error::ShortenError(m)),
        Reply::BodyRejected(m) => Err(Error::ResponseError(m)),
        Reply::Received(rec) => returned_url(&rec.link),
    }
}

/// The result of an API expand for its reply: the parsed long URL,
/// `ExpandError` wrapping the response error when the transport failed,
/// `ResponseError` when the body did not decode, and `BadUrl` when the
/// returned URL does not parse.
pub fn expand_result(reply: Reply<LinkRecord>) -> (r: Result<String, Error>)
    ensures
        reply matches Reply::TransportFailed(m) ==> r matches Err(Error::ExpandError(t))
            && t@ == message_of(Error::ResponseError(m)),
        reply matches Reply::BodyRejected(m) ==> r == Err::<String, Error>(Error::ResponseError(m)),
        reply matches Reply::Received(rec) ==> (url_parse_outcome(rec.long_url@) matches Ok(s)
            ==> r matches Ok(t) && t@ == s),
        reply matches Reply::Received(rec) ==> (url_parse_outcome(rec.long_url@) matches Err(s)
            ==> r matches Err(Error::BadUrl(m)) && m@ == s),
{
    match reply {
        Reply::TransportFailed(m) => Err(Error::ExpandError(Error::ResponseError(m).message())),
        Reply::BodyRejected(m) => Err(Error::ResponseError(m)),
        Reply::Received(rec) => returned_url(&rec.long_url),
    }
}

/// The result of a redirect-following expand: the final URL after redirects,
/// or `ExpandError` wrapping the response error when the GET failed.
pub fn redirect_result(fetched: Result<String, String>) -> (r: Result<String, Error>)
    ensures
        fetched matches Ok(u) ==> r == Ok::<String, Error>(u),
        fetched matches Err(m) ==> r matches Err(Error::ExpandError(t))
            && t@ == message_of(Error::ResponseError(m)),
{
    match fetched {
        Ok(u) => Ok(u),
        Err(m) => Err(Error::ExpandError(Error::ResponseError(m).message())),
    }
}

/// The per-day click counts for a reply of the clicks endpoint; any failure is
/// a `ResponseError`.
pub fn link_clicks_result(reply: Reply<Clicks>) -> (r: Result<Vec<LinkClicks>, Error>)
    ensures
        r == clicks_outcome(reply),
{
    match reply {
        Reply::TransportFailed(m) => Err(Error::ResponseError(m)),
        Reply::BodyRejected(m) => Err(Error::ResponseError(m)),
        Reply::Received(c) => Ok(c.link_clicks),
    }
}

proof fn lemma_clicks_sum_prefix(s: Seq<LinkClicks>, i: int)
    requires
        0 <= i <= s.len(),
    ensures
        clicks_sum(s.take(i)) <= clicks_sum(s),
    decreases s.len() - i,
{
    if i < s.len() {
        lemma_clicks_sum_prefix(s, i + 1);
        assert(s.take(i + 1).drop_last() =~= s.take(i));
    } else {
        assert(s.take(i) =~= s);
    }
}

/// Sums the `clicks` fields; `None` when the sum does not fit in a `u32`.
pub fn sum_clicks(clicks: &Vec<LinkClicks>) -> (r: Option<u32>)
    ensures
        clicks_sum(clicks@) <= u32::MAX ==> r == Some(clicks_sum(clicks@) as u32),
        clicks_sum(clicks@) > u32::MAX ==> r is None,
{
    let mut total: u32 = 0;
    let mut i: usize = 0;
    while i < clicks.len()
        invariant
            i <= clicks@.len(),
            total == clicks_sum(clicks@.take(i as int)),
        decreases clicks@.len() - i,
    {
        assert(clicks@.take(i + 1).drop_last() =~= clicks@.take(i as int));
        let c = clicks[i].clicks;
        if c > u32::MAX - total {
            proof {
                lemma_clicks_sum_prefix(clicks@, i + 1);
            }
            return None;
        }
        total = total + c;
        i = i + 1;
    }
    assert(clicks@.take(clicks@.len() as int) =~= clicks@);
    Some(total)
}

/// The total click count of a listing: the sum of its `clicks` fields, the
/// listing's own error unchanged, or a `ResponseError` when the sum does not
/// fit in a `u32`.
pub fn total_clicks(listed: Result<Vec<LinkClicks>, Error>) -> (r: Result<u32, Error>)
    ensures
        listed_total(listed) is Ok && listed_total(listed)->Ok_0 <= u32::MAX
            ==> r == Ok::<u32, Error>(listed_total(listed)->Ok_0 as u32),
        listed_total(listed) is Ok && listed_total(listed)->Ok_0 > u32::MAX
            ==> (r matches Err(Error::ResponseError(m)) && m@ == "click total exceeds the u32 range"@),
        listed is Err ==> r == Err::<u32, Error>(listed->Err_0),
{
    match listed {
        Err(e) => Err(e),
        Ok(v) => match sum_clicks(&v) {
            Some(n) => Ok(n),
            None => Err(Error::ResponseError(String::from_str("click total exceeds the u32 range"))),
        },
    }
}

/// The total click count that a reply of the clicks endpoint gives is the sum
/// of the `clicks` fields of the per-day counts that the same reply lists.
pub proof fn lemma_total_is_sum_of_listed(reply: Reply<Clicks>)
    ensures
        clicks_outcome(reply) is Ok ==> listed_total(clicks_outcome(reply))
            == Ok::<nat, Error>(clicks_sum(clicks_outcome(reply)->Ok_0@)),
        reply matches Reply::Received(c) ==> listed_total(clicks_outcome(reply))
            == Ok::<nat, Error>(clicks_sum(c.link_clicks@)),
        clicks_outcome(reply) is Err ==> listed_total(clicks_outcome(reply))
            == Err::<nat, Error>(clicks_outcome(reply)->Err_0),
{
}

} // verus!
