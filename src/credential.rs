//! The credential that signs requests: a user id and a secret key, with
//! HMAC-SHA1 over the path and query of each URL.
use vstd::prelude::*;
use vstd::slice::slice_to_vec;
use vstd::string::StringExecFns;
use vstd::utf8::encode_utf8;
use hmac::{Hmac, Mac};
use sha1::Sha1;
use crate::encoding::{encode_upper, upper_hex, form_encoded, form_append, is_upper_hex_char, lemma_upper_hex_shape};
use crate::request_url::{RequestUrl, UrlView};

verus! {

/// The HMAC-SHA1 tag of a message under a key.
pub uninterp spec fn hmac_sha1_of(key: Seq<u8>, message: Seq<u8>) -> Seq<u8>;

/// Relies on hmac's `Hmac<Sha1>` (with sha1's `Sha1`): `new_from_slice`
/// accepts a key of any length and never fails, and the finalized tag is the
/// 20-byte HMAC-SHA1 of the bytes fed in.
#[verifier::external_body]
fn hmac_sha1(key: &[u8], message: &[u8]) -> (r: Vec<u8>)
    ensures
        r@ == hmac_sha1_of(key@, message@),
        r@.len() == 20,
{
    let mut mac = <Hmac<Sha1> as Mac>::new_from_slice(key).expect("HMAC takes a key of any length");
    mac.update(message);
    mac.finalize().into_bytes().to_vec()
}

/// The bytes that are signed: the path, `?`, and the query string.
pub open spec fn signed_message(u: UrlView) -> Seq<u8> {
    encode_utf8(u.path + seq!['?'] + u.query_text())
}

/// The signature of a URL: uppercase hexadecimal of the HMAC-SHA1 tag of
/// its signed message.
pub open spec fn signature_for(key: Seq<u8>, u: UrlView) -> Seq<char> {
    upper_hex(hmac_sha1_of(key, signed_message(u)))
}

/// The URL with the `devid` parameter appended.
pub open spec fn with_devid(u: UrlView, user_id: Seq<char>) -> UrlView {
    u.with_pair("devid"@, user_id)
}

/// The signed URL: `devid` appended, then `signature` computed over that
/// URL and appended after it.
pub open spec fn signed_url(u: UrlView, user_id: Seq<char>, key: Seq<u8>) -> UrlView {
    let d = with_devid(u, user_id);
    d.with_pair("signature"@, signature_for(key, d))
}

/// The model of a credential.
pub struct CredentialView {
    pub user_id: Seq<char>,
    pub key: Seq<u8>,
}

/// A user id and the secret key that signs its requests.
#[derive(Clone)]
pub struct Credential {
    user_id: String,
    key: Vec<u8>,
}

impl View for Credential {
    type V = CredentialView;

    closed spec fn view(&self) -> CredentialView {
        CredentialView { user_id: self.user_id@, key: self.key@ }
    }
}

impl Credential {
    /// A credential for a user id and a secret key of any length.
    pub fn new(user_id: String, api_key: &[u8]) -> (r: Credential)
        ensures
            r@.user_id == user_id@,
            r@.key == api_key@,
    {
        Credential { user_id, key: slice_to_vec(api_key) }
    }

    /// Signs a URL: appends `devid=<user id>`, then `signature=<hex>`, where
    /// the hex is the uppercase HMAC-SHA1 of the path, `?`, and the query
    /// as it stands after `devid` was appended.
    pub fn sign(&self, url: &mut RequestUrl)
        ensures
            final(url)@ == signed_url(old(url)@, self@.user_id, self@.key),
            hmac_sha1_of(self@.key, signed_message(with_devid(old(url)@, self@.user_id))).len() == 20,
    {
        url.append_pair("devid", self.user_id.as_str());
        let message = message_to_sign(url);
        let tag = hmac_sha1(self.key.as_slice(), message.as_str().as_bytes());
        append_signature(url, tag.as_slice());
    }
}

/// The text whose bytes are signed: the path, `?`, and the query string.
pub fn message_to_sign(url: &RequestUrl) -> (r: String)
    ensures
        r@ == url@.path + seq!['?'] + url@.query_text(),
        encode_utf8(r@) == signed_message(url@),
{
    proof {
        reveal_strlit("?");
    }
    let mut message = String::from_str(url.path());
    message.append("?");
    match url.query() {
        Some(q) => message.append(q),
        None => {},
    }
    assert(message@ =~= url@.path + seq!['?'] + url@.query_text());
    message
}

/// Appends `signature=<hex>`, the tag in uppercase hexadecimal.
pub fn append_signature(url: &mut RequestUrl, tag: &[u8])
    ensures
        final(url)@ == old(url)@.with_pair("signature"@, upper_hex(tag@)),
{
    let hex = encode_upper(tag);
    url.append_pair("signature", hex.as_str());
}

/// The signature, and so the signed query, depends only on the key, the user
/// id, the path and the query: two URLs that agree on those are signed alike.
pub proof fn lemma_signature_determined(u1: UrlView, u2: UrlView, user_id: Seq<char>, key: Seq<u8>)
    requires
        u1.path == u2.path,
        u1.query == u2.query,
    ensures
        signature_for(key, with_devid(u1, user_id)) == signature_for(key, with_devid(u2, user_id)),
        signed_url(u1, user_id, key).query == signed_url(u2, user_id, key).query,
        signed_url(u1, user_id, key).path == signed_url(u2, user_id, key).path,
{
}

/// In a signed URL's query, `devid` comes before `signature`, and `signature`
/// is appended after the signed message was taken: the message covers the
/// query up to and including `devid`, and nothing after it.
pub proof fn lemma_parameter_order(u: UrlView, user_id: Seq<char>, key: Seq<u8>)
    ensures
        ({
            let d = with_devid(u, user_id);
            let devid_part = form_encoded(encode_utf8("devid"@)) + seq!['='] + form_encoded(encode_utf8(user_id));
            let signature_part = form_encoded(encode_utf8("signature"@)) + seq!['='] + form_encoded(
                encode_utf8(signature_for(key, d)),
            );
            &&& d.query_text() == form_append(u.query_text(), encode_utf8("devid"@), encode_utf8(user_id))
            &&& d.query_text().len() >= devid_part.len()
            &&& d.query_text().subrange(d.query_text().len() - devid_part.len(), d.query_text().len() as int) == devid_part
            &&& signed_url(u, user_id, key).query_text() == d.query_text() + seq!['&'] + signature_part
            &&& signed_message(d) == encode_utf8(u.path + seq!['?'] + d.query_text())
        }),
{
    let d = with_devid(u, user_id);
    let devid_part = form_encoded(encode_utf8("devid"@)) + seq!['='] + form_encoded(encode_utf8(user_id));
    let sep: Seq<char> = if u.query_text().len() == 0 { Seq::empty() } else { seq!['&'] };
    assert(d.query_text() =~= u.query_text() + sep + devid_part);
    assert(d.query_text().subrange(d.query_text().len() - devid_part.len(), d.query_text().len() as int) =~= devid_part);
    let signature_part = form_encoded(encode_utf8("signature"@)) + seq!['='] + form_encoded(
        encode_utf8(signature_for(key, d)),
    );
    assert(d.query_text().len() > 0);
    assert(signed_url(u, user_id, key).query_text() =~= d.query_text() + seq!['&'] + signature_part);
}

/// The signature is forty characters, each an uppercase hexadecimal digit,
/// whenever the tag is twenty bytes (as `Credential::sign` ensures it is).
pub proof fn lemma_signature_upper_hex(key: Seq<u8>, u: UrlView)
    requires
        hmac_sha1_of(key, signed_message(u)).len() == 20,
    ensures
        signature_for(key, u).len() == 40,
        forall|i: int| 0 <= i < 40 ==> is_upper_hex_char(#[trigger] signature_for(key, u)[i]),
{
    lemma_upper_hex_shape(hmac_sha1_of(key, signed_message(u)));
}

} // verus!
