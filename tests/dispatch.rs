use ptv::credential::Credential;
use ptv::dispatch::{decoded, fetched, signed_request, RequestError};
use ptv::endpoints::route_types_url;

#[test]
fn transport_failure_is_a_transport_error() {
    let r = fetched(Err("connection refused".to_string()));
    let e = r.unwrap_err();
    assert!(e.is_transport());
    assert!(!e.is_decode());
    assert_eq!(e.message(), "connection refused");
}

#[test]
fn malformed_body_is_a_decode_error() {
    let body = fetched(Ok(b"{not json".to_vec())).unwrap();
    assert_eq!(body, b"{not json".to_vec());
    let r = decoded::<u32>(Err("expected value at line 1 column 2".to_string()));
    let e = r.unwrap_err();
    assert!(e.is_decode());
    assert!(!e.is_transport());
    assert_eq!(e, RequestError::Decode("expected value at line 1 column 2".to_string()));
}

#[test]
fn transport_and_decode_errors_differ() {
    let a = fetched(Err("x".to_string())).unwrap_err();
    let b = decoded::<()>(Err("x".to_string())).unwrap_err();
    assert_ne!(a, b);
}

#[test]
fn decoded_value_is_kept() {
    assert_eq!(decoded(Ok::<u32, String>(7)), Ok(7));
}

#[test]
fn signed_request_signs_the_url() {
    let cred = Credential::new("2".to_owned(), "9c132d31-6a30-4cac-8d8b-8a1970834799".as_bytes());
    let url = signed_request(&cred, route_types_url());
    assert_eq!(
        url.as_string(),
        "https://timetableapi.ptv.vic.gov.au/v3/route_types?devid=2&signature=9104F2DE9E883943F8627BF959914C2CDCD9FD10"
    );
}
