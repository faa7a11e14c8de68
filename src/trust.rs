//! Trust bootstrap: the server's ephemeral self-signed identity, the limits
//! its transport is set up with, and the policy by which a client decides to
//! trust the certificate a server presents.

use vstd::prelude::*;
use crate::text::owned;

verus! {

/// Concurrent streams a peer may hold open on one connection, each way.
pub const MAX_CONCURRENT_STREAMS: u32 = 100;

/// The host name the server's identity is bound to, and the name a client
/// expects.
pub fn server_name() -> (r: String)
    ensures
        r@ == "localhost"@,
{
    owned("localhost")
}

/// A certificate chain in DER form and the PKCS#8 DER private key that goes
/// with its first certificate.
#[derive(Debug, Clone, PartialEq, Eq)]
pub struct Identity {
    pub cert_chain: Vec<Vec<u8>>,
    pub private_key: Vec<u8>,
}

/// The identity could not be made.
#[derive(Debug, Clone, PartialEq, Eq)]
pub struct TrustError {
    pub reason: String,
}

/// Relies on `rcgen::generate_simple_self_signed`: a fresh key pair and a
/// certificate for `names`, signed by that key, as DER bytes; or the error's
/// text. The key is random, so nothing is known of the bytes.
#[verifier::external_body]
fn self_signed_der(names: Vec<String>) -> Result<(Vec<u8>, Vec<u8>), String> {
    match rcgen::generate_simple_self_signed(names) {
        Ok(certified) => Ok((certified.cert.der().to_vec(), certified.key_pair.serialize_der())),
        Err(e) => Err(e.to_string()),
    }
}

/// A fresh identity for this server process, bound to `server_name()`: a
/// chain of one self-signed certificate and its key.
pub fn generate_self_signed() -> (r: Result<Identity, TrustError>)
    ensures
        r matches Ok(id) ==> id.cert_chain@.len() == 1,
{
    let mut names: Vec<String> = Vec::new();
    names.push(server_name());
    match self_signed_der(names) {
        Ok((cert, key)) => {
            let mut chain: Vec<Vec<u8>> = Vec::new();
            chain.push(cert);
            Ok(Identity { cert_chain: chain, private_key: key })
        },
        Err(reason) => Err(TrustError { reason }),
    }
}

/// Whether a client goes on with a server's certificate.
#[derive(Debug, Clone, Copy, PartialEq, Eq, Structural)]
pub enum Verdict {
    Allow,
    Reject,
}

/// How a client judges the certificate chain a server presents for a name.
/// Transport setup consults it and knows nothing else of it, so another
/// policy (pinning, a certificate authority) can take its place.
pub trait ServerCertPolicy {
    fn verify(&self, chain: &Vec<Vec<u8>>, server_name: &str) -> Verdict;
}

/// The current policy: every certificate is accepted, unchecked. This is
/// insecure: it trusts whatever the peer presents.
#[derive(Debug, Clone, Copy, PartialEq, Eq, Structural)]
pub struct AcceptAnyServer;

impl ServerCertPolicy for AcceptAnyServer {
    fn verify(&self, chain: &Vec<Vec<u8>>, server_name: &str) -> (r: Verdict)
        ensures
            r == Verdict::Allow,
    {
        Verdict::Allow
    }
}

} // verus!
