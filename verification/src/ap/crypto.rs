//! Crypto AP: reads certificates and computes signatures with the key-pairs
//! issued on the card.

use std::rc::Rc;
use vstd::prelude::*;

use crate::card::Card;
use crate::nfc::{Error, Handler};

verus! {

/// The 10-byte application identifier of the Crypto AP's dedicated file.
pub open spec fn spec_df_name() -> Seq<u8> {
    seq![0xD3u8, 0x92u8, 0xF0u8, 0x00u8, 0x26u8, 0x01u8, 0x00u8, 0x00u8, 0x00u8, 0x01u8]
}

fn df_name() -> (r: Vec<u8>)
    ensures
        r@ == spec_df_name(),
{
    let r = vec![0xD3u8, 0x92, 0xF0, 0x00, 0x26, 0x01, 0x00, 0x00, 0x00, 0x01];
    proof {
        assert(r@ =~= spec_df_name());
    }
    r
}

/// Type of the certificate to fetch.
#[derive(Copy, Clone, Debug, PartialEq, Eq, Structural)]
pub enum CertType {
    /// Certificate for authentication.
    Auth,
    /// Certificate of the CA (Certificate Authority) that issued the
    /// authentication certificate.
    AuthCA,
    /// Certificate for signing documents.
    Sign,
    /// Certificate of the CA (Certificate Authority) that issued the signing
    /// certificate.
    SignCA,
}

/// The identifier of the elementary file that holds each certificate.
pub open spec fn spec_efid(ty: CertType) -> Seq<u8> {
    match ty {
        CertType::Auth => seq![0x00u8, 0x0Au8],
        CertType::AuthCA => seq![0x00u8, 0x0Bu8],
        CertType::Sign => seq![0x00u8, 0x01u8],
        CertType::SignCA => seq![0x00u8, 0x02u8],
    }
}

impl CertType {
    /// Converts the variant into the identifier to select a EF
    /// that corresponds with the selected certificate.
    pub fn into_efid(self) -> (r: [u8; 2])
        ensures
            r@ == spec_efid(self),
    {
        let r: [u8; 2] = match self {
            Self::Auth => [0x00, 0x0A],
            Self::AuthCA => [0x00, 0x0B],
            Self::Sign => [0x00, 0x01],
            Self::SignCA => [0x00, 0x02],
        };
        proof {
            assert(r@ =~= spec_efid(self));
        }
        r
    }

    /// Determines whether it is needed for fetching the certificate to
    /// unlock it with a PIN: only the signing certificate requires that.
    pub fn is_pin_required(&self) -> (r: bool)
        ensures
            r == (*self == CertType::Sign),
    {
        matches!(self, Self::Sign)
    }
}

/// The certificate types map one-to-one onto elementary files: every type
/// selects a two-byte identifier, and distinct types select distinct files.
pub proof fn lemma_cert_type_efid_injective(a: CertType, b: CertType)
    ensures
        spec_efid(a).len() == 2,
        spec_efid(a) == spec_efid(b) ==> a == b,
{
    if spec_efid(a) == spec_efid(b) {
        assert(spec_efid(a)[1] == spec_efid(b)[1]);
    }
}

/// An AP to sign or verify messages using a key-pair issued on the card.
pub struct CryptoAp<T, Ctx> {
    card: Rc<Card<T, Ctx>>,
}

impl<T, Ctx> CryptoAp<T, Ctx> where T: Handler<Ctx>, Ctx: Copy {
    /// Opens the AP in the card by selecting the DF.
    pub fn open(ctx: Ctx, card: Rc<Card<T, Ctx>>) -> (r: Result<CryptoAp<T, Ctx>, Error>)
        ensures
            r matches Err(e) ==> (e matches Error::VerificationFailed(n) ==> n <= 15),
    {
        let ap = CryptoAp { card };
        match ap.card.select_df(ctx, df_name()) {
            Ok(_) => Ok(ap),
            Err(e) => Err(e),
        }
    }

    /// Reads a certificate of the type, unlocking with the PIN first where
    /// the type requires it; a failed verification aborts the read before
    /// the certificate file is ever selected.
    pub fn read_certificate(&self, ctx: Ctx, ty: CertType, pin: Vec<u8>) -> (r: Result<
        Vec<u8>,
        Error,
    >)
        requires
            pin@.len() <= 255,
        ensures
            r matches Ok(cert) ==> cert@.len() <= 0xFFFF,
            r matches Err(e) ==> (e matches Error::VerificationFailed(n) ==> n <= 15),
    {
        if ty.is_pin_required() {
            match self.verify_sign_pin(ctx, pin) {
                Ok(_) => (),
                Err(e) => {
                    return Err(e);
                },
            }
        }
        let efid = ty.into_efid();
        match self.card.select_ef(ctx, vec![efid[0], efid[1]]) {
            Ok(_) => (),
            Err(e) => {
                return Err(e);
            },
        }
        let size = match self.card.read_der_size(ctx) {
            Ok(s) => s,
            Err(e) => {
                return Err(e);
            },
        };
        self.card.read(ctx, Some(size))
    }

    /// Computes a signature using the key-pair for authentication.
    pub fn auth(&self, ctx: Ctx, pin: Vec<u8>, digest: Vec<u8>) -> (r: Result<Vec<u8>, Error>)
        requires
            pin@.len() <= 255,
            digest@.len() <= 255,
        ensures
            r matches Err(e) ==> (e matches Error::VerificationFailed(n) ==> n <= 15),
    {
        match self.verify_auth_pin(ctx, pin) {
            Ok(_) => (),
            Err(e) => {
                return Err(e);
            },
        }
        match self.card.select_ef(ctx, vec![0x00, 0x17]) {
            Ok(_) => self.card.sign(ctx, digest),
            Err(e) => Err(e),
        }
    }

    /// Computes a signature using the key-pair for signing.
    pub fn sign(&self, ctx: Ctx, pin: Vec<u8>, digest: Vec<u8>) -> (r: Result<Vec<u8>, Error>)
        requires
            pin@.len() <= 255,
            digest@.len() <= 255,
        ensures
            r matches Err(e) ==> (e matches Error::VerificationFailed(n) ==> n <= 15),
    {
        match self.verify_sign_pin(ctx, pin) {
            Ok(_) => (),
            Err(e) => {
                return Err(e);
            },
        }
        match self.card.select_ef(ctx, vec![0x00, 0x1A]) {
            Ok(_) => self.card.sign(ctx, digest),
            Err(e) => Err(e),
        }
    }

    /// Gets how many attempts remain for the PIN for user authentication;
    /// zero means the PIN is not blocked.
    pub fn auth_pin_status(&self, ctx: Ctx) -> (r: Result<u8, Error>)
        ensures
            r matches Ok(n) ==> n <= 15,
            r matches Err(e) ==> !(e matches Error::VerificationFailed(_)),
    {
        self.card.pin_status(ctx, [0x00, 0x18])
    }

    /// Gets how many attempts remain for the PIN for signing; zero means the
    /// PIN is not blocked.
    pub fn sign_pin_status(&self, ctx: Ctx) -> (r: Result<u8, Error>)
        ensures
            r matches Ok(n) ==> n <= 15,
            r matches Err(e) ==> !(e matches Error::VerificationFailed(_)),
    {
        self.card.pin_status(ctx, [0x00, 0x1B])
    }

    fn verify_auth_pin(&self, ctx: Ctx, pin: Vec<u8>) -> (r: Result<(), Error>)
        requires
            pin@.len() <= 255,
        ensures
            r matches Err(e) ==> (e matches Error::VerificationFailed(n) ==> n <= 15),
    {
        self.card.verify_pin(ctx, [0x00, 0x18], pin)
    }

    fn verify_sign_pin(&self, ctx: Ctx, pin: Vec<u8>) -> (r: Result<(), Error>)
        requires
            pin@.len() <= 255,
        ensures
            r matches Err(e) ==> (e matches Error::VerificationFailed(n) ==> n <= 15),
    {
        self.card.verify_pin(ctx, [0x00, 0x1B], pin)
    }
}

} // verus!
