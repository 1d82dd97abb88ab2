//! The self-signed TLS identity the TLS listener serves with: generated once
//! per process start, never persisted. Generation failure is fatal to startup,
//! so the error is handed to the caller as a message.

use vstd::prelude::*;
use crate::server::HttpServer;

verus! {

#[verifier::external_type_specification]
#[verifier::external_body]
pub struct ExRcgenError(rcgen::Error);

/// Relies on `rcgen::generate_simple_self_signed`, which builds a self-signed
/// certificate whose subject alternative names are the given list, and on
/// `rcgen::Certificate::pem` and `rcgen::KeyPair::serialize_pem`, which render
/// the certificate and its private key in PEM. The key is drawn at random, so
/// nothing relates the output to the input.
#[verifier::external_body]
fn generate_self_signed(subject_alt_names: Vec<String>) -> (r: Result<
    (String, String),
    rcgen::Error,
>) {
    match rcgen::generate_simple_self_signed(subject_alt_names) {
        Ok(certified) => Ok((certified.cert.pem(), certified.key_pair.serialize_pem())),
        Err(e) => Err(e),
    }
}

/// Relies on `rcgen::Error`'s `Display` implementation for a human-readable
/// message.
#[verifier::external_body]
fn rcgen_error_message(e: &rcgen::Error) -> (msg: String) {
    format!("{}", e)
}

/// A certificate/key pair in PEM, ready for the TLS listener.
pub struct TlsIdentity {
    pub cert_pem: String,
    pub key_pem: String,
}

impl HttpServer {
    /// Generate this process's TLS identity, covering `localhost` and the
    /// solver's in-cluster service name. An error here aborts startup; its
    /// message is the generator's own.
    pub fn tls_identity(&self) -> (r: Result<TlsIdentity, String>) {
        let names = self.subject_alt_names();
        match generate_self_signed(names) {
            Ok((cert_pem, key_pem)) => Ok(TlsIdentity { cert_pem, key_pem }),
            Err(e) => Err(rcgen_error_message(&e)),
        }
    }
}

} // verus!
