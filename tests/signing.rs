use ptv::credential::{append_signature, message_to_sign, Credential};
use ptv::request_url::RequestUrl;

const KEY: &str = "9c132d31-6a30-4cac-8d8b-8a1970834799";
const ROUTE_TYPES: &str = "https://timetableapi.ptv.vic.gov.au/v3/route_types";
const ROUTE_TYPES_SIGNED: &str = "https://timetableapi.ptv.vic.gov.au/v3/route_types?devid=2&signature=9104F2DE9E883943F8627BF959914C2CDCD9FD10";

fn signature_of(url: &RequestUrl) -> String {
    let query = url.query().unwrap();
    let at = query.rfind("&signature=").unwrap();
    query[at + "&signature=".len()..].to_string()
}

fn is_upper_hex_40(s: &str) -> bool {
    s.len() == 40 && s.chars().all(|c| c.is_ascii_digit() || ('A'..='F').contains(&c))
}

#[test]
fn signing() {
    let cred = Credential::new("2".to_owned(), "9c132d31-6a30-4cac-8d8b-8a1970834799".as_bytes());
    let mut url = RequestUrl::parse("https://timetableapi.ptv.vic.gov.au/v3/route_types").unwrap();
    cred.sign(&mut url);
    assert_eq!(
        url,
        RequestUrl::parse("https://timetableapi.ptv.vic.gov.au/v3/route_types?devid=2&signature=9104F2DE9E883943F8627BF959914C2CDCD9FD10").unwrap(),
    );
}

#[test]
fn known_vector_on_short_host() {
    let cred = Credential::new("2".to_owned(), KEY.as_bytes());
    let mut url = RequestUrl::parse("https://host/v3/route_types").unwrap();
    cred.sign(&mut url);
    assert_eq!(
        url.as_string(),
        "https://host/v3/route_types?devid=2&signature=9104F2DE9E883943F8627BF959914C2CDCD9FD10"
    );
}

#[test]
fn signing_is_deterministic() {
    let cred = Credential::new("2".to_owned(), KEY.as_bytes());
    let mut a = RequestUrl::parse("https://one.example/v3/routes?route_types=0").unwrap();
    let mut b = RequestUrl::parse("https://two.example/v3/routes?route_types=0").unwrap();
    cred.sign(&mut a);
    cred.sign(&mut b);
    assert_eq!(a.query(), b.query());
    let mut c = RequestUrl::parse("https://one.example/v3/routes?route_types=1").unwrap();
    cred.sign(&mut c);
    assert_ne!(signature_of(&a), signature_of(&c));
}

#[test]
fn devid_comes_before_signature() {
    let cred = Credential::new("1234".to_owned(), KEY.as_bytes());
    let mut url = RequestUrl::parse("https://host/v3/outlets?max_results=3").unwrap();
    cred.sign(&mut url);
    let query = url.query().unwrap();
    assert!(query.starts_with("max_results=3&devid=1234&signature="));
    assert_eq!(query.find("devid").unwrap() < query.find("signature").unwrap(), true);
}

#[test]
fn message_covers_devid_not_signature() {
    let mut url = RequestUrl::parse("https://host/v3/outlets?max_results=3").unwrap();
    url.append_pair("devid", "1234");
    assert_eq!(message_to_sign(&url), "/v3/outlets?max_results=3&devid=1234");
}

#[test]
fn message_of_url_without_query() {
    let url = RequestUrl::parse("https://host/v3/route_types").unwrap();
    assert_eq!(message_to_sign(&url), "/v3/route_types?");
}

#[test]
fn signature_is_uppercase_hex() {
    for (user, key) in [("2", KEY), ("x y", "k"), ("", ""), ("user", "another secret")] {
        let cred = Credential::new(user.to_owned(), key.as_bytes());
        let mut url = RequestUrl::parse("https://host/v3/directions/7").unwrap();
        cred.sign(&mut url);
        assert!(is_upper_hex_40(&signature_of(&url)));
    }
}

#[test]
fn append_signature_writes_uppercase_hex() {
    let mut url = RequestUrl::parse("https://host/p?devid=2").unwrap();
    append_signature(&mut url, &[0x0a, 0xff, 0x00, 0x9c]);
    assert_eq!(url.query(), Some("devid=2&signature=0AFF009C"));
}

#[test]
fn credential_is_reusable() {
    let cred = Credential::new("2".to_owned(), KEY.as_bytes());
    let mut first = RequestUrl::parse(ROUTE_TYPES).unwrap();
    cred.sign(&mut first);
    let mut other = RequestUrl::parse("https://timetableapi.ptv.vic.gov.au/v3/routes?route_types=2").unwrap();
    cred.sign(&mut other);
    let mut again = RequestUrl::parse(ROUTE_TYPES).unwrap();
    cred.sign(&mut again);
    assert_eq!(first, RequestUrl::parse(ROUTE_TYPES_SIGNED).unwrap());
    assert_eq!(again, RequestUrl::parse(ROUTE_TYPES_SIGNED).unwrap());
    assert_ne!(signature_of(&other), signature_of(&again));
}

#[test]
fn keys_of_any_length_are_accepted() {
    let long = vec![0x5au8; 1000];
    for key in [&b""[..], &b"k"[..], &long[..]] {
        let cred = Credential::new("2".to_owned(), key);
        let mut url = RequestUrl::parse(ROUTE_TYPES).unwrap();
        cred.sign(&mut url);
        assert!(is_upper_hex_40(&signature_of(&url)));
    }
    let empty = Credential::new("2".to_owned(), b"");
    let short = Credential::new("2".to_owned(), b"k");
    let mut a = RequestUrl::parse(ROUTE_TYPES).unwrap();
    let mut b = RequestUrl::parse(ROUTE_TYPES).unwrap();
    empty.sign(&mut a);
    short.sign(&mut b);
    assert_ne!(a, b);
}

#[test]
fn user_id_is_form_encoded() {
    let cred = Credential::new("a b&c".to_owned(), KEY.as_bytes());
    let mut url = RequestUrl::parse(ROUTE_TYPES).unwrap();
    cred.sign(&mut url);
    assert!(url.query().unwrap().starts_with("devid=a+b%26c&signature="));
}
