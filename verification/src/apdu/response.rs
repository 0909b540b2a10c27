//! Parsing raw card responses and classifying their status words.

use vstd::prelude::*;

use crate::nfc::Error;

verus! {

/// A status word is the success family when it is (0x90, 0x00) or
/// (0x91, 0x00).
pub open spec fn sw_success(sw1: u8, sw2: u8) -> bool {
    (sw1 == 0x90 && sw2 == 0x00) || (sw1 == 0x91 && sw2 == 0x00)
}

/// A status word is the verification-failed family when SW1 is 0x63 and the
/// high nibble of SW2 is 0xC; the low nibble then counts the remaining
/// attempts.
pub open spec fn sw_verify_failed(sw1: u8, sw2: u8) -> bool {
    sw1 == 0x63 && sw2 & 0xF0 == 0xC0
}

/// The remaining-attempts count carried in the low nibble of SW2.
pub open spec fn sw_remaining(sw2: u8) -> u8 {
    sw2 & 0x0F
}

/// The outcome a status word classifies into. Exactly one variant applies to
/// every status word.
#[derive(Clone, Copy, Debug, PartialEq, Eq, Structural)]
pub enum StatusOutcome {
    /// The command succeeded; the response payload is meaningful.
    Success,
    /// PIN verification failed; this many attempts remain.
    VerificationFailed(u8),
    /// Any other failure, carrying the raw status word.
    OtherFailure(u8, u8),
}

/// The total classification of a status word into its outcome.
pub open spec fn classify_sw(sw1: u8, sw2: u8) -> StatusOutcome {
    if sw_success(sw1, sw2) {
        StatusOutcome::Success
    } else if sw_verify_failed(sw1, sw2) {
        StatusOutcome::VerificationFailed(sw_remaining(sw2))
    } else {
        StatusOutcome::OtherFailure(sw1, sw2)
    }
}

/// Classifies a status word. Every status word maps to exactly one outcome.
pub fn classify(sw1: u8, sw2: u8) -> (r: StatusOutcome)
    ensures
        r == classify_sw(sw1, sw2),
{
    if (sw1 == 0x90 && sw2 == 0x00) || (sw1 == 0x91 && sw2 == 0x00) {
        StatusOutcome::Success
    } else if sw1 == 0x63 && sw2 & 0xF0 == 0xC0 {
        StatusOutcome::VerificationFailed(sw2 & 0x0F)
    } else {
        StatusOutcome::OtherFailure(sw1, sw2)
    }
}

/// The classification of status words is total and the three families are
/// mutually exclusive: every status word falls in exactly one of the success
/// family, the verification-failed family, and the rest.
pub proof fn lemma_sw_classification_total(sw1: u8, sw2: u8)
    ensures
        !(sw_success(sw1, sw2) && sw_verify_failed(sw1, sw2)),
        sw_success(sw1, sw2) ==> classify_sw(sw1, sw2) == StatusOutcome::Success,
        sw_verify_failed(sw1, sw2) ==> classify_sw(sw1, sw2) == StatusOutcome::VerificationFailed(
            sw_remaining(sw2),
        ),
        !sw_success(sw1, sw2) && !sw_verify_failed(sw1, sw2) ==> classify_sw(sw1, sw2)
            == StatusOutcome::OtherFailure(sw1, sw2),
        sw_remaining(sw2) <= 15,
{
    assert(sw2 & 0x0F <= 15) by (bit_vector);
}

/// A response that was received from the card.
pub struct Response {
    pub payload: Vec<u8>,
    pub trailer: (u8, u8),
}

impl Response {
    /// Creates an empty response.
    pub fn new() -> (r: Response)
        ensures
            r.payload@ == Seq::<u8>::empty(),
            r.trailer == (0u8, 0u8),
    {
        Response { payload: Vec::new(), trailer: (0, 0) }
    }

    /// Parses a response from the octets: the last two bytes are the status
    /// word, everything before is the payload. Fewer than two bytes classify
    /// as status word (0x00, 0x00) with an empty payload.
    pub fn from_bytes(bytes: Vec<u8>) -> (r: Response)
        ensures
            bytes@.len() >= 2 ==> r.payload@ == bytes@.subrange(0, bytes@.len() - 2)
                && r.trailer.0 == bytes@[bytes@.len() - 2] && r.trailer.1 == bytes@[bytes@.len()
                - 1],
            bytes@.len() < 2 ==> r.payload@ == Seq::<u8>::empty() && r.trailer == (0u8, 0u8),
    {
        let mut rest = bytes;
        let sw2 = rest.pop();
        let sw1 = rest.pop();
        match (sw1, sw2) {
            (Some(a), Some(b)) => Response { payload: rest, trailer: (a, b) },
            _ => {
                assert(rest@ =~= Seq::<u8>::empty());
                Response { payload: rest, trailer: (0, 0) }
            },
        }
    }

    /// Determines whether the response indicates success or not.
    pub fn is_ok(&self) -> (r: bool)
        ensures
            r == sw_success(self.trailer.0, self.trailer.1),
    {
        (self.trailer.0 == 0x90 && self.trailer.1 == 0x00) || (self.trailer.0 == 0x91
            && self.trailer.1 == 0x00)
    }

    /// Converts the response to a typed result: the payload on success, a
    /// remaining-attempts error for the verification-failed family, and a
    /// card-rejected error carrying the raw status word otherwise.
    pub fn into_result(self) -> (r: Result<Vec<u8>, Error>)
        ensures
            sw_success(self.trailer.0, self.trailer.1) ==> (r matches Ok(p) && p@
                == self.payload@),
            sw_verify_failed(self.trailer.0, self.trailer.1) ==> r == Err::<Vec<u8>, Error>(
                Error::VerificationFailed(sw_remaining(self.trailer.1)),
            ),
            !sw_success(self.trailer.0, self.trailer.1) && !sw_verify_failed(
                self.trailer.0,
                self.trailer.1,
            ) ==> r == Err::<Vec<u8>, Error>(Error::CardRejected(self.trailer.0, self.trailer.1)),
            r matches Err(e) ==> (e matches Error::VerificationFailed(n) ==> n <= 15),
    {
        proof {
            lemma_sw_classification_total(self.trailer.0, self.trailer.1);
        }
        match classify(self.trailer.0, self.trailer.1) {
            StatusOutcome::Success => Ok(self.payload),
            StatusOutcome::VerificationFailed(n) => Err(Error::VerificationFailed(n)),
            StatusOutcome::OtherFailure(a, b) => Err(Error::CardRejected(a, b)),
        }
    }
}

} // verus!
