//! The decisions of one authenticated request: sign the URL, then tell a
//! failure of the transport from a failure to decode what it returned.
use vstd::prelude::*;
use crate::credential::{Credential, signed_url};
use crate::request_url::RequestUrl;

verus! {

/// Why a request failed.
#[derive(Clone, Debug, PartialEq, Eq)]
pub enum RequestError {
    /// The request did not complete: no connection, TLS, a timeout, or a
    /// status that the transport reports as an error.
    Transport(String),
    /// The response arrived but its body is not the JSON that was asked for.
    Decode(String),
}

impl RequestError {
    pub fn is_transport(&self) -> (r: bool)
        ensures
            r == (self is Transport),
    {
        match self {
            RequestError::Transport(_) => true,
            RequestError::Decode(_) => false,
        }
    }

    pub fn is_decode(&self) -> (r: bool)
        ensures
            r == (self is Decode),
    {
        match self {
            RequestError::Transport(_) => false,
            RequestError::Decode(_) => true,
        }
    }

    /// What the transport or the decoder said.
    pub fn message(&self) -> (r: &str)
        ensures
            match self {
                RequestError::Transport(m) => r@ == m@,
                RequestError::Decode(m) => r@ == m@,
            },
    {
        match self {
            RequestError::Transport(m) => m.as_str(),
            RequestError::Decode(m) => m.as_str(),
        }
    }
}

/// Takes an unsigned URL and gives back the URL signed by the credential.
pub fn signed_request(cred: &Credential, url: RequestUrl) -> (r: RequestUrl)
    ensures
        r@ == signed_url(url@, cred@.user_id, cred@.key),
{
    let mut url = url;
    cred.sign(&mut url);
    url
}

/// A body that arrived is kept; a failed round trip becomes a transport error.
pub open spec fn fetch_outcome(response: Result<Vec<u8>, String>) -> Result<Vec<u8>, RequestError> {
    match response {
        Ok(body) => Ok(body),
        Err(m) => Err(RequestError::Transport(m)),
    }
}

/// A decoded value is kept; a failure to decode becomes a decode error.
pub open spec fn decode_outcome<T>(value: Result<T, String>) -> Result<T, RequestError> {
    match value {
        Ok(v) => Ok(v),
        Err(m) => Err(RequestError::Decode(m)),
    }
}

/// The outcome of the network round trip: the body, or a transport error.
pub fn fetched(response: Result<Vec<u8>, String>) -> (r: Result<Vec<u8>, RequestError>)
    ensures
        r == fetch_outcome(response),
{
    match response {
        Ok(body) => Ok(body),
        Err(m) => Err(RequestError::Transport(m)),
    }
}

/// The outcome of decoding a body that arrived: the value, or a decode error.
pub fn decoded<T>(value: Result<T, String>) -> (r: Result<T, RequestError>)
    ensures
        r == decode_outcome(value),
{
    match value {
        Ok(v) => Ok(v),
        Err(m) => Err(RequestError::Decode(m)),
    }
}

/// A failed round trip and a body that does not decode end in errors that a
/// caller tells apart, whatever their messages.
pub proof fn lemma_failures_distinguishable<T>(transport: String, decode: String)
    ensures
        ({
            let a = fetch_outcome(Err(transport));
            let b = decode_outcome::<T>(Err(decode));
            &&& a matches Err(e) && e is Transport
            &&& b matches Err(e) && e is Decode
        }),
{
}

} // verus!
