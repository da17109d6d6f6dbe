//! The authentication tag that proves possession of the shared secret to the
//! registrar: an HMAC-SHA384 over the agent's identifier, keyed with the
//! base64 text of the secret, written in hexadecimal.

use vstd::prelude::*;
use vstd::string::StringSliceAdditionalSpecFns;
use vstd::utf8::encode_utf8;
use crate::error::AgentError;
use crate::hex_text::{hex_encode, hex_text, lemma_hex_text_injective};
use crate::text::lemma_utf8_injective;

verus! {

/// The declaration that lets `openssl::error::ErrorStack` pass through
/// verified code. Nothing is known of a value of it.
#[verifier::external_type_specification]
#[verifier::external_body]
pub struct ExErrorStack(openssl::error::ErrorStack);

/// What `base64::encode` makes of bytes: their text in the standard alphabet
/// with padding, as ASCII bytes.
pub uninterp spec fn base64_standard(input: Seq<u8>) -> Seq<u8>;

/// The HMAC-SHA384 of `message` under `key`, as OpenSSL computes it.
pub uninterp spec fn hmac_sha384(key: Seq<u8>, message: Seq<u8>) -> Seq<u8>;

/// How long the base64 text of `n` bytes is: four characters for every three
/// bytes begun.
pub open spec fn base64_len(n: nat) -> nat {
    4 * ((n + 2) / 3)
}

/// The longest key that OpenSSL takes for an HMAC.
pub const MAX_MAC_KEY_LEN: usize = 0x7fff_ffff;

/// Whether a shared secret of `n` bytes gives a MAC key that OpenSSL takes.
pub open spec fn secret_fits(n: nat) -> bool {
    base64_len(n) <= MAX_MAC_KEY_LEN
}

/// The MAC key derived from a shared secret: the bytes of its base64 text.
pub open spec fn mac_key(shared_secret: Seq<u8>) -> Seq<u8> {
    base64_standard(shared_secret)
}

/// The MAC over an agent's identifier under a shared secret.
pub open spec fn identifier_mac(agent_id: Seq<char>, shared_secret: Seq<u8>) -> Seq<u8> {
    hmac_sha384(mac_key(shared_secret), encode_utf8(agent_id))
}

/// The authentication tag for an agent's identifier under a shared secret.
pub open spec fn auth_tag(agent_id: Seq<char>, shared_secret: Seq<u8>) -> Seq<char> {
    hex_text(identifier_mac(agent_id, shared_secret))
}

/// Calls `base64::encode` and hands out the text's bytes.
///
/// Trusted: the result is a function of the input alone, and has the length
/// that the crate's `encoded_size` computes for padded output. The call
/// panics where that length does not fit in `usize`.
#[verifier::external_body]
pub(crate) fn base64_encode(input: &[u8]) -> (out: Vec<u8>)
    requires
        base64_len(input@.len()) <= usize::MAX,
    ensures
        out@ == base64_standard(input@),
        out@.len() == base64_len(input@.len()),
{
    base64::encode(input).into_bytes()
}

/// Computes an HMAC with OpenSSL: `PKey::hmac` for the key, `Signer::new`
/// with `MessageDigest::sha384`, one `update` with the message, then
/// `sign_to_vec`.
///
/// Trusted: where the calls succeed, the bytes are the HMAC-SHA384 of the
/// message under the key. `PKey::hmac` panics on a key longer than a C `int`
/// can count. Nothing is claimed of when the calls fail.
#[verifier::external_body]
pub(crate) fn hmac_sha384_sign(key: &[u8], message: &[u8]) -> (signed: Result<
    Vec<u8>,
    openssl::error::ErrorStack,
>)
    requires
        key@.len() <= MAX_MAC_KEY_LEN,
    ensures
        signed matches Ok(mac) ==> mac@ == hmac_sha384(key@, message@),
{
    let pkey = openssl::pkey::PKey::hmac(key)?;
    let mut signer = openssl::sign::Signer::new(openssl::hash::MessageDigest::sha384(), &pkey)?;
    signer.update(message)?;
    signer.sign_to_vec()
}

/// The longest shared secret whose MAC key OpenSSL takes.
pub const MAX_SECRET_LEN: usize = 1_610_612_733;

/// Whether a shared secret of `n` bytes can be used for the tag.
pub fn secret_is_usable(n: usize) -> (usable: bool)
    ensures
        usable == secret_fits(n as nat),
{
    n <= MAX_SECRET_LEN
}

/// Derives the MAC key from the shared secret recovered at activation.
pub fn derive_mac_key(shared_secret: &[u8]) -> (key: Vec<u8>)
    requires
        secret_fits(shared_secret@.len()),
    ensures
        key@ == mac_key(shared_secret@),
        key@.len() == base64_len(shared_secret@.len()),
{
    base64_encode(shared_secret)
}

/// Writes a MAC as the tag that is sent to the registrar.
pub fn auth_tag_text(mac: &[u8]) -> (tag: String)
    ensures
        tag@ == hex_text(mac@),
        tag@.len() == 2 * mac@.len(),
{
    hex_encode(mac)
}

/// Computes the authentication tag over the agent's identifier.
///
/// The only failure is one of the MAC computation itself, which is reported
/// as `CryptoFailure`.
pub fn compute_auth_tag(agent_id: &str, shared_secret: &[u8]) -> (outcome: Result<
    String,
    AgentError,
>)
    requires
        secret_fits(shared_secret@.len()),
    ensures
        match outcome {
            Ok(tag) => tag@ == auth_tag(agent_id@, shared_secret@),
            Err(e) => e == AgentError::CryptoFailure,
        },
{
    let key = derive_mac_key(shared_secret);
    match hmac_sha384_sign(key.as_slice(), agent_id.as_bytes()) {
        Ok(mac) => Ok(auth_tag_text(mac.as_slice())),
        Err(_) => Err(AgentError::CryptoFailure),
    }
}

/// Two tags under one secret are equal only where the two MACs are, and two
/// identifiers that differ hand the MAC different messages: the tag
/// separates identifiers as well as HMAC-SHA384 does.
pub proof fn lemma_tag_separates_identifiers(
    id_a: Seq<char>,
    id_b: Seq<char>,
    shared_secret: Seq<u8>,
)
    ensures
        id_a != id_b ==> encode_utf8(id_a) != encode_utf8(id_b),
        auth_tag(id_a, shared_secret) == auth_tag(id_b, shared_secret) ==> identifier_mac(
            id_a,
            shared_secret,
        ) == identifier_mac(id_b, shared_secret),
{
    if encode_utf8(id_a) == encode_utf8(id_b) {
        lemma_utf8_injective(id_a, id_b);
    }
    if auth_tag(id_a, shared_secret) == auth_tag(id_b, shared_secret) {
        lemma_hex_text_injective(
            identifier_mac(id_a, shared_secret),
            identifier_mac(id_b, shared_secret),
        );
    }
}

} // verus!
