use url_shortener::bitly::Shortener;
use url_shortener::error::Error;
use url_shortener::normalize::clean_url;

fn shortener() -> Shortener {
    Shortener::new(String::from("SECRET-REDACTED"))
}

#[test]
fn test_clean_url() {
    let b = shortener();
    let clean_url = b.clean_url("google.com".as_bytes().to_vec()).unwrap();
    assert_eq!(std::str::from_utf8(&clean_url).unwrap(), "https://google.com");
}

#[test]
fn clean_url_keeps_http_scheme() {
    let r = clean_url(b"http://example.com/a?b=c").unwrap();
    assert_eq!(r, b"http://example.com/a?b=c".to_vec());
}

#[test]
fn clean_url_keeps_https_scheme() {
    let r = clean_url(b"https://www.google.com/").unwrap();
    assert_eq!(r, b"https://www.google.com/".to_vec());
}

#[test]
fn clean_url_prefixes_default_scheme_once() {
    let r = clean_url(b"bit.ly/TEST").unwrap();
    assert_eq!(r, b"https://bit.ly/TEST".to_vec());
    let again = clean_url(&r).unwrap();
    assert_eq!(again, r);
}

#[test]
fn clean_url_accepts_single_label_host() {
    let r = clean_url(b"google").unwrap();
    assert_eq!(r, b"https://google".to_vec());
}

#[test]
fn clean_url_rejects_invalid_utf8() {
    let r = clean_url(&[0x67, 0xff, 0x6f]);
    assert!(matches!(r, Err(Error::BadUrl(_))));
}

#[test]
fn clean_url_rejects_unparseable_url() {
    let r = clean_url(b"http://[::1");
    assert!(matches!(r, Err(Error::BadUrl(_))));
}

#[test]
fn clean_url_rejects_empty_host() {
    let r = clean_url(b"");
    assert!(matches!(r, Err(Error::BadUrl(_))));
}

#[test]
fn error_descriptions() {
    assert_eq!(Error::BadUrl(String::from("x")).description(), "Url is not valid");
    assert_eq!(Error::ResponseError(String::from("x")).description(), "Got response error");
    assert_eq!(Error::ShortenError(String::from("x")).description(), "Got shorten error");
    assert_eq!(Error::ExpandError(String::from("x")).description(), "Got expand error");
}

#[test]
fn error_messages() {
    assert_eq!(Error::BadUrl(String::from("a b")).message(), "Url a b is not valid");
    assert_eq!(Error::ResponseError(String::from("timeout")).message(), "Got response error: timeout");
    assert_eq!(Error::ShortenError(String::from("refused")).message(), "Got shorten error: refused");
    assert_eq!(Error::ExpandError(String::from("gone")).message(), "Got expand error: gone");
}
