//! An engine for talking to a JPKI (Japanese personal-identification) smart
//! card over the ISO 7816 APDU protocol: the command/response codec, the
//! chunked binary-read and file-selection session, a minimal DER reader used
//! to size and decode card records, and the per-application protocol layers.

use std::rc::Rc;
use vstd::prelude::*;

pub mod ap;
pub mod apdu;
pub mod card;
pub mod der;
pub mod digest;
pub mod nfc;

pub use card::Card;

use crate::ap::crypto::{CertType, CryptoAp};
use crate::nfc::{Error, Handler};

verus! {

/// High-level API to operate with the authentication certificate and its
/// key-pair.
pub struct ClientForAuth<T, Ctx> {
    jpki_ap: Box<CryptoAp<T, Ctx>>,
}

impl<T, Ctx> ClientForAuth<T, Ctx> where T: Handler<Ctx>, Ctx: Copy {
    /// Initiates a client with the delegate by opening the Crypto AP on a
    /// fresh card session.
    pub fn create(ctx: Ctx, delegate: Box<T>) -> (r: Result<ClientForAuth<T, Ctx>, Error>)
        ensures
            r matches Err(e) ==> (e matches Error::VerificationFailed(n) ==> n <= 15),
    {
        match CryptoAp::open(ctx, Rc::new(Card::new(delegate))) {
            Ok(jpki_ap) => Ok(ClientForAuth { jpki_ap: Box::new(jpki_ap) }),
            Err(e) => Err(e),
        }
    }

    /// Computes a signature for the message with the authentication
    /// key-pair, unlocking the key with the PIN: what is signed is the
    /// SHA-1 DigestInfo of the message.
    pub fn sign(&self, ctx: Ctx, pin: Vec<u8>, message: Vec<u8>) -> (r: Result<Vec<u8>, Error>)
        requires
            pin@.len() <= 255,
            message@.len() <= 0x1FFF_FFFF_FFFF_FFFF,
        ensures
            r matches Err(e) ==> (e matches Error::VerificationFailed(n) ==> n <= 15),
    {
        self.jpki_ap.auth(ctx, pin, digest::calculate(message))
    }

    /// Verifies the signature for the message against the authentication
    /// certificate read from the card.
    pub fn verify(&self, ctx: Ctx, message: Vec<u8>, signature: Vec<u8>) -> (r: Result<
        bool,
        Error,
    >)
        ensures
            r matches Err(e) ==> (e matches Error::VerificationFailed(n) ==> n <= 15),
    {
        match self.jpki_ap.read_certificate(ctx, CertType::Auth, Vec::new()) {
            Ok(certificate) => Ok(digest::verify(certificate, message, signature)),
            Err(e) => Err(e),
        }
    }
}

} // verus!
