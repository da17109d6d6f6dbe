//! The evidence service's request surface: which operation a request
//! addresses, and whether the request may proceed.
//!
//! A quote is bound to the caller's nonce, so a quote request that brings
//! none is refused before anything is asked of the hardware.

use vstd::prelude::*;
use vstd::string::StringExecFns;
use crate::error::AgentError;
use crate::text::str_eq;

verus! {

/// The request methods that the service tells apart.
#[derive(Clone, Copy, Debug, PartialEq, Eq, Structural)]
pub enum Method {
    Get,
    Post,
    Other,
}

/// The four operations of the evidence service.
#[derive(Clone, Copy, Debug, PartialEq, Eq, Structural)]
pub enum Operation {
    /// Confirm the reconstructed key material.
    VerifyKey,
    /// Take delivery of a wrapped key share.
    DeliverWrappedKey,
    /// A quote that binds the attestation identity to a nonce.
    IdentityQuote,
    /// A quote over the platform configuration registers.
    IntegrityQuote,
}

impl Operation {
    /// The path under which the operation is served.
    pub open spec fn spec_path(self) -> Seq<char> {
        match self {
            Operation::VerifyKey => "/keys/verify"@,
            Operation::DeliverWrappedKey => "/keys/ukey"@,
            Operation::IdentityQuote => "/quotes/identity"@,
            Operation::IntegrityQuote => "/quotes/integrity"@,
        }
    }

    /// The method with which the operation is requested.
    pub open spec fn spec_method(self) -> Method {
        match self {
            Operation::DeliverWrappedKey => Method::Post,
            _ => Method::Get,
        }
    }

    /// Whether the operation produces a quote, and so needs a nonce.
    pub open spec fn spec_is_quote(self) -> bool {
        self is IdentityQuote || self is IntegrityQuote
    }

    /// The path under which the operation is served.
    pub fn path(&self) -> (p: &'static str)
        ensures
            p@ == self.spec_path(),
    {
        match self {
            Operation::VerifyKey => "/keys/verify",
            Operation::DeliverWrappedKey => "/keys/ukey",
            Operation::IdentityQuote => "/quotes/identity",
            Operation::IntegrityQuote => "/quotes/integrity",
        }
    }

    /// The method with which the operation is requested.
    pub fn method(&self) -> (m: Method)
        ensures
            m == self.spec_method(),
    {
        match self {
            Operation::DeliverWrappedKey => Method::Post,
            _ => Method::Get,
        }
    }

    /// Whether the operation produces a quote, and so needs a nonce.
    pub fn is_quote(&self) -> (q: bool)
        ensures
            q == self.spec_is_quote(),
    {
        match self {
            Operation::IdentityQuote | Operation::IntegrityQuote => true,
            _ => false,
        }
    }
}

/// The operation that a method and a path address, if any.
pub open spec fn routed(method: Method, path: Seq<char>) -> Option<Operation> {
    if method == Method::Get && path == Operation::VerifyKey.spec_path() {
        Some(Operation::VerifyKey)
    } else if method == Method::Post && path == Operation::DeliverWrappedKey.spec_path() {
        Some(Operation::DeliverWrappedKey)
    } else if method == Method::Get && path == Operation::IdentityQuote.spec_path() {
        Some(Operation::IdentityQuote)
    } else if method == Method::Get && path == Operation::IntegrityQuote.spec_path() {
        Some(Operation::IntegrityQuote)
    } else {
        None
    }
}

/// The four paths differ from one another.
pub proof fn lemma_paths_distinct()
    ensures
        forall|a: Operation, b: Operation| a != b ==> a.spec_path() != b.spec_path(),
{
    reveal_strlit("/keys/verify");
    reveal_strlit("/keys/ukey");
    reveal_strlit("/quotes/identity");
    reveal_strlit("/quotes/integrity");
    assert(Operation::VerifyKey.spec_path().len() == 12);
    assert(Operation::DeliverWrappedKey.spec_path().len() == 10);
    assert(Operation::IdentityQuote.spec_path().len() == 16);
    assert(Operation::IntegrityQuote.spec_path().len() == 17);
}

/// Dispatch is exact in both directions: each operation is reached by its
/// own method and path, and whatever is routed to an operation came by that
/// operation's method and path.
pub proof fn lemma_route_exact(method: Method, path: Seq<char>, operation: Operation)
    ensures
        routed(operation.spec_method(), operation.spec_path()) == Some(operation),
        routed(method, path) == Some(operation) ==> method == operation.spec_method() && path
            == operation.spec_path(),
{
    lemma_paths_distinct();
}

/// Finds the operation that a request addresses.
pub fn route(method: Method, path: &str) -> (operation: Option<Operation>)
    ensures
        operation == routed(method, path@),
{
    match method {
        Method::Get => {
            if str_eq(path, "/keys/verify") {
                Some(Operation::VerifyKey)
            } else if str_eq(path, "/quotes/identity") {
                Some(Operation::IdentityQuote)
            } else if str_eq(path, "/quotes/integrity") {
                Some(Operation::IntegrityQuote)
            } else {
                None
            }
        },
        Method::Post => {
            if str_eq(path, "/keys/ukey") {
                Some(Operation::DeliverWrappedKey)
            } else {
                None
            }
        },
        Method::Other => None,
    }
}

/// What the service does with a request.
#[derive(Debug, PartialEq, Eq)]
pub enum Admission {
    /// Ask the hardware for a quote over the nonce.
    Quote { operation: Operation, nonce: String },
    /// Report on the reconstructed key.
    VerifyKey,
    /// Combine the delivered key share with the one held.
    CombineKeyShare,
    /// Answer the caller with an error.
    Rejected(AgentError),
    /// The request addresses no operation.
    NotFound,
}

impl Admission {
    /// Whether carrying out the admission asks anything of the hardware.
    pub open spec fn reaches_hardware(self) -> bool {
        self is Quote
    }
}

/// What becomes of a request, given which operation it addresses, the nonce
/// it brings and whether the key has been reconstructed.
pub open spec fn admission_of(
    target: Option<Operation>,
    nonce: Option<Seq<char>>,
    key_ready: bool,
    admission: Admission,
) -> bool {
    match target {
        None => admission is NotFound,
        Some(Operation::VerifyKey) => if key_ready {
            admission is VerifyKey
        } else {
            admission == Admission::Rejected(AgentError::KeyNotReady)
        },
        Some(Operation::DeliverWrappedKey) => admission is CombineKeyShare,
        Some(quote) => match nonce {
            None => admission == Admission::Rejected(AgentError::MissingNonce),
            Some(text) => admission matches Admission::Quote { operation, nonce: held }
                && operation == quote && held@ == text,
        },
    }
}

/// The character view of an optional nonce.
pub open spec fn nonce_view(nonce: Option<String>) -> Option<Seq<char>> {
    match nonce {
        Some(text) => Some(text@),
        None => None,
    }
}

/// Decides what to do with a request to an operation.
///
/// A quote operation without a nonce is rejected with `MissingNonce`; nothing
/// but a quote operation with a nonce reaches the hardware.
pub fn admit_operation(operation: Operation, nonce: Option<String>, key_ready: bool) -> (admission:
    Admission)
    ensures
        admission_of(Some(operation), nonce_view(nonce), key_ready, admission),
        operation.spec_is_quote() && nonce is None ==> admission == Admission::Rejected(
            AgentError::MissingNonce,
        ),
        admission.reaches_hardware() ==> operation.spec_is_quote() && nonce is Some,
        admission matches Admission::Rejected(e) ==> e.is_request_error(),
{
    match operation {
        Operation::VerifyKey => {
            if key_ready {
                Admission::VerifyKey
            } else {
                Admission::Rejected(AgentError::KeyNotReady)
            }
        },
        Operation::DeliverWrappedKey => Admission::CombineKeyShare,
        Operation::IdentityQuote | Operation::IntegrityQuote => {
            match nonce {
                Some(text) => Admission::Quote { operation, nonce: text },
                None => Admission::Rejected(AgentError::MissingNonce),
            }
        },
    }
}

/// Decides what to do with a request, from its method, path and nonce.
pub fn admit_request(method: Method, path: &str, nonce: Option<String>, key_ready: bool) -> (admission:
    Admission)
    ensures
        admission_of(routed(method, path@), nonce_view(nonce), key_ready, admission),
        admission.reaches_hardware() ==> nonce is Some,
{
    match route(method, path) {
        Some(operation) => admit_operation(operation, nonce, key_ready),
        None => Admission::NotFound,
    }
}

/// Whether two key shares fit one another: they are of one length.
pub open spec fn shares_consistent(held: Seq<u8>, delivered: Seq<u8>) -> bool {
    held.len() == delivered.len()
}

/// The key that two shares of one length make up: their exclusive or, byte
/// by byte.
pub open spec fn combined_key(held: Seq<u8>, delivered: Seq<u8>) -> Seq<u8> {
    Seq::new(held.len(), |i: int| held[i] ^ delivered[i])
}

/// Combines the delivered key share with the one held.
///
/// Shares of different lengths are inconsistent and give
/// `KeyReconstructionError`; otherwise the key is reconstructed.
pub fn combine_key_shares(held: &[u8], delivered: &[u8]) -> (outcome: Result<Vec<u8>, AgentError>)
    ensures
        match outcome {
            Ok(key) => shares_consistent(held@, delivered@) && key@ == combined_key(
                held@,
                delivered@,
            ),
            Err(e) => !shares_consistent(held@, delivered@) && e
                == AgentError::KeyReconstructionError,
        },
{
    if held.len() != delivered.len() {
        return Err(AgentError::KeyReconstructionError);
    }
    let n: usize = held.len();
    let mut key: Vec<u8> = Vec::new();
    let mut i: usize = 0;
    while i < n
        invariant
            i <= n,
            n == held@.len(),
            n == delivered@.len(),
            key@.len() == i,
            forall|j: int| 0 <= j < i ==> key@[j] == held@[j] ^ delivered@[j],
        decreases n - i,
    {
        key.push(held[i] ^ delivered[i]);
        i += 1;
    }
    assert(key@ =~= combined_key(held@, delivered@));
    Ok(key)
}

/// Either share is recovered from the key and the other share, and the key
/// does not depend on which share was the held one.
pub proof fn lemma_combined_key_inverts(held: Seq<u8>, delivered: Seq<u8>)
    requires
        shares_consistent(held, delivered),
    ensures
        combined_key(combined_key(held, delivered), delivered) == held,
        combined_key(held, delivered) == combined_key(delivered, held),
{
    assert forall|i: int| 0 <= i < held.len() implies (held[i] ^ delivered[i]) ^ delivered[i]
        == held[i] && held[i] ^ delivered[i] == delivered[i] ^ held[i] by {
        let a = held[i];
        let b = delivered[i];
        assert((a ^ b) ^ b == a && a ^ b == b ^ a) by (bit_vector);
    }
    assert(combined_key(combined_key(held, delivered), delivered) =~= held);
    assert(combined_key(held, delivered) =~= combined_key(delivered, held));
}

/// The address on which the service listens: the host, a colon, the port.
pub fn listen_address(host: &str, port: &str) -> (address: String)
    ensures
        address@ == host@ + ":"@ + port@,
{
    let mut address = host.to_owned();
    address.append(":");
    address.append(port);
    address
}

} // verus!
