//! KeyProvider: the process-wide asymmetric keypair.
//!
//! The keypair is generated once at startup and never mutated.  The public
//! half is rendered as a PEM document; its shape is checked here by
//! verified code, so nothing about the text needs to be assumed of the
//! crypto library.  Failure to generate is fatal for the service: the
//! caller must not begin serving requests without a keypair.

use vstd::prelude::*;

verus! {

use crate::pem::is_wellformed_pem;
use crate::pem::pem_to_base64;
use crate::pem::pem_wellformed;
use crate::pem::strip_framing;
use rsa::pkcs8::EncodePublicKey;

#[verifier::external_type_specification]
#[verifier::external_body]
pub struct ExRsaPrivateKey(rsa::RsaPrivateKey);

#[verifier::external_type_specification]
#[verifier::external_body]
pub struct ExRsaPublicKey(rsa::RsaPublicKey);

/// Relies on rand::thread_rng and rsa::RsaPrivateKey::new: draws a fresh
/// private key of the given bit size.  The result is random, so nothing is
/// promised of it; a size the library refuses comes back as None.
#[verifier::external_body]
fn generate_private_key(bits: usize) -> (r: Option<rsa::RsaPrivateKey>) {
    let mut rng = rand::thread_rng();
    rsa::RsaPrivateKey::new(&mut rng, bits).ok()
}

/// Relies on rsa::RsaPublicKey::from: derives the public half of a
/// private key.
#[verifier::external_body]
fn public_key_of(private: &rsa::RsaPrivateKey) -> (r: rsa::RsaPublicKey) {
    rsa::RsaPublicKey::from(private)
}

/// Relies on rsa::pkcs8::EncodePublicKey::to_public_key_pem: renders the
/// public key as a PEM document with LF line endings.  Nothing is assumed
/// of the text; the caller checks its shape with verified code.
#[verifier::external_body]
fn encode_public_key_pem(public: &rsa::RsaPublicKey) -> (r: Option<String>) {
    public.to_public_key_pem(rsa::pkcs8::LineEnding::LF).ok()
}

/// The process keypair, generated once, immutable afterwards.
pub struct KeyPair {
    public: rsa::RsaPublicKey,
    private: rsa::RsaPrivateKey,
    pem: String,
}

impl View for KeyPair {
    type V = Seq<char>;

    /// A keypair is abstracted to its public PEM document.
    closed spec fn view(&self) -> Seq<char> {
        self.pem@
    }
}

impl KeyPair {
    /// The public PEM document is a well-formed keyed document.
    pub open spec fn wf(&self) -> bool {
        pem_wellformed(self.view())
    }

    /// Generates a fresh keypair of the given bit size and renders its
    /// public half.  Returns None when the crypto library refuses the size
    /// or hands back a document of an unexpected shape.
    pub fn generate(bits: usize) -> (r: Option<KeyPair>)
        ensures
            r matches Some(kp) ==> kp.wf(),
    {
        let private = match generate_private_key(bits) {
            Some(p) => p,
            None => {
                return None;
            },
        };
        let public = public_key_of(&private);
        let pem = match encode_public_key_pem(&public) {
            Some(p) => p,
            None => {
                return None;
            },
        };
        if is_wellformed_pem(pem.as_str()) {
            Some(KeyPair { public, private, pem })
        } else {
            None
        }
    }

    /// The public key stripped of framing and line breaks, ready to stand
    /// as an XML attribute value.  Deterministic for a fixed key: it is a
    /// function of the PEM document alone.
    pub fn public_key_encoded(&self) -> (r: String)
        ensures
            r@ == strip_framing(self@),
    {
        pem_to_base64(self.pem.clone())
    }

    /// The public PEM document itself.
    pub fn public_key_pem(&self) -> (r: &String)
        ensures
            r@ == self@,
    {
        &self.pem
    }
}

} // verus!
