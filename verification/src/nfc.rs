//! The boundary towards the physical card: the transport trait and the
//! error taxonomy shared by every layer of the engine.

use vstd::prelude::*;

verus! {

/// The ways a card operation can fail.
#[derive(Clone, Copy, Debug, PartialEq, Eq, Structural)]
pub enum Error {
    /// The transport could not exchange bytes with the card at all.
    Transport,
    /// The response or a card record was malformed.
    Protocol,
    /// The card rejected the command with this status word, which is outside
    /// both the success and the verification-failed families.
    CardRejected(u8, u8),
    /// PIN verification failed; this many attempts remain.
    VerificationFailed(u8),
}

/// A handler that moves one request to the card through a reader and returns
/// the raw response bytes, status word included. Implementations belong to
/// the surrounding application; the engine assumes nothing of the bytes that
/// come back.
pub trait Handler<Ctx> {
    fn handle(&self, ctx: Ctx, request: &[u8]) -> Result<Vec<u8>, Error>;
}

/// A delegate to communicate with the card outside.
pub trait Card<Ctx>: Handler<Ctx> {

}

} // verus!
