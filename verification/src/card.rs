//! The card session: sequencing of file selection, chunked reads, PIN
//! verification, and signing over the transport delegate.

use core::marker::PhantomData;
use vstd::prelude::*;

use crate::apdu::{Command, Response};
use crate::der::{der_header_ok, der_size, Reader};
use crate::nfc::{Error, Handler};

verus! {

/// P1 of `SELECT FILE` when selecting a DF by name.
pub const SELECT_P1_DF: u8 = 0x04;

/// P1 of `SELECT FILE` when selecting an EF by identifier.
pub const SELECT_P1_EF: u8 = 0x02;

/// P2 of `SELECT FILE`: no response data requested.
pub const SELECT_P2: u8 = 0x0C;

/// P2 of `VERIFY`: the reference data of the currently selected EF.
pub const VERIFY_P2: u8 = 0x80;

/// CLA of the proprietary INTERNAL-SIGN instruction.
pub const SIGN_CLA: u8 = 0x80;

/// INS of the proprietary INTERNAL-SIGN instruction.
pub const SIGN_INS: u8 = 0x2A;

/// P1 of the proprietary INTERNAL-SIGN instruction.
pub const SIGN_P1: u8 = 0x00;

/// P2 of the proprietary INTERNAL-SIGN instruction.
pub const SIGN_P2: u8 = 0x80;

/// How many bytes `read` collects at most: the requested maximum, or the
/// largest count the two big-endian offset bytes can address when no maximum
/// is given.
pub open spec fn read_limit(len: Option<u16>) -> int {
    match len {
        Some(l) => l as int,
        None => 0xFFFF,
    }
}

/// How a verification outcome reads as a remaining-attempts count: success
/// means the PIN is usable and counts as zero, a verification-failed status
/// carries its count, and any other failure passes through unchanged.
pub open spec fn spec_count_of(r: Result<(), Error>) -> Result<u8, Error> {
    match r {
        Ok(_) => Ok(0),
        Err(Error::VerificationFailed(n)) => Ok(n),
        Err(e) => Err(e),
    }
}

/// Interprets a verification outcome as a remaining-attempts count.
fn count_of(r: Result<(), Error>) -> (s: Result<u8, Error>)
    ensures
        s == spec_count_of(r),
{
    match r {
        Ok(_) => Ok(0),
        Err(Error::VerificationFailed(count)) => Ok(count),
        Err(e) => Err(e),
    }
}

/// Computes the entire object size a DER header declares, as far as a
/// 16-bit read can cover it: the header must be complete and supported, and
/// the whole object (header plus content) must fit the two offset bytes.
fn size_from_header(header: &[u8]) -> (r: Result<u16, Error>)
    ensures
        r is Ok <==> der_header_ok(header@) && der_size(header@) <= 0xFFFF,
        r matches Ok(n) ==> n as int == der_size(header@),
        r matches Err(e) ==> e == Error::Protocol,
{
    let reader = Reader::new(header);
    if !reader.has_header() {
        return Err(Error::Protocol);
    }
    let mut reader = reader;
    let length = reader.read_length();
    if length > 0xFFFF {
        return Err(Error::Protocol);
    }
    let total = length + reader.cursor;
    if total > 0xFFFF {
        return Err(Error::Protocol);
    }
    Ok(total as u16)
}

/// The parameters of the next `READ BINARY` round at offset `pos`: the two
/// big-endian offset bytes, and a request for `min(remaining, 255)` octets.
fn next_request(limit: u16, pos: u16) -> (r: (u8, u8, u8))
    requires
        pos < limit,
    ensures
        r.0 == pos / 256,
        r.1 == pos % 256,
        r.2 as int == vstd::math::min((limit - pos) as int, 255),
{
    let remaining: u16 = limit - pos;
    let le: u8 = if remaining > 0xFF {
        0xFF
    } else {
        remaining as u8
    };
    ((pos / 256) as u8, (pos % 256) as u8, le)
}

/// Accepts one fragment of a chunked read: a fragment longer than the `le`
/// octets requested is malformed and leaves the buffer alone; otherwise the
/// fragment is appended whole and its length is reported, so the caller can
/// treat a short fragment as the end of the file.
fn accept_fragment(buf: &mut Vec<u8>, fragment: Vec<u8>, le: u8) -> (r: Result<u16, Error>)
    ensures
        fragment@.len() > le ==> r == Err::<u16, Error>(Error::Protocol) && final(buf)@ == old(
            buf,
        )@,
        fragment@.len() <= le ==> final(buf)@ == old(buf)@ + fragment@ && r == Ok::<u16, Error>(
            fragment@.len() as u16,
        ),
{
    if fragment.len() > le as usize {
        return Err(Error::Protocol);
    }
    let length = fragment.len() as u16;
    let mut fragment = fragment;
    buf.append(&mut fragment);
    Ok(length)
}

/// An adapter to communicate with the card through the delegate.
pub struct Card<T, Ctx> {
    delegate: Box<T>,
    _ctx: PhantomData<Ctx>,
}

impl<T, Ctx> Card<T, Ctx> where T: Handler<Ctx>, Ctx: Copy {
    /// Initiates an adapter with the delegate.
    pub fn new(delegate: Box<T>) -> Card<T, Ctx> {
        Card { delegate, _ctx: PhantomData }
    }

    /// Encodes the command, exchanges it through the delegate, and decodes
    /// and classifies the raw response. A transport failure surfaces as the
    /// transport error; a verification-failed status word carries at most 15
    /// remaining attempts.
    fn transceive(&self, ctx: Ctx, command: Command) -> (r: Result<Vec<u8>, Error>)
        requires
            command.wf(),
        ensures
            r matches Err(e) ==> (e matches Error::VerificationFailed(n) ==> n <= 15),
    {
        let request = command.into_bytes();
        let raw = match self.delegate.handle(ctx, request.as_slice()) {
            Ok(bytes) => bytes,
            Err(_) => {
                return Err(Error::Transport);
            },
        };
        Response::from_bytes(raw).into_result()
    }

    /// Selects a DF with their name.
    pub fn select_df(&self, ctx: Ctx, name: Vec<u8>) -> (r: Result<(), Error>)
        requires
            name@.len() <= 255,
        ensures
            r matches Err(e) ==> (e matches Error::VerificationFailed(n) ==> n <= 15),
    {
        match self.transceive(ctx, Command::select_file(SELECT_P1_DF, SELECT_P2, name)) {
            Ok(_) => Ok(()),
            Err(e) => Err(e),
        }
    }

    /// Selects an EF with their identifier.
    pub fn select_ef(&self, ctx: Ctx, id: Vec<u8>) -> (r: Result<(), Error>)
        requires
            id@.len() <= 255,
        ensures
            r matches Err(e) ==> (e matches Error::VerificationFailed(n) ==> n <= 15),
    {
        match self.transceive(ctx, Command::select_file(SELECT_P1_EF, SELECT_P2, id)) {
            Ok(_) => Ok(()),
            Err(e) => Err(e),
        }
    }

    /// Reads binary from the selected file for `len` octets at most, looping
    /// over `READ BINARY` commands at increasing offsets. Every round
    /// requests `min(remaining, 255)` octets; a fragment shorter than the
    /// request signals the end of the file and ends the loop. A fragment
    /// longer than the request is malformed.
    pub fn read(&self, ctx: Ctx, len: Option<u16>) -> (r: Result<Vec<u8>, Error>)
        ensures
            r matches Ok(b) ==> b@.len() <= read_limit(len),
            r matches Err(e) ==> (e matches Error::VerificationFailed(n) ==> n <= 15),
    {
        let limit: u16 = match len {
            Some(l) => l,
            None => 0xFFFF,
        };
        let mut pos: u16 = 0;
        let mut buf: Vec<u8> = Vec::new();
        while pos < limit
            invariant_except_break
                pos <= limit,
            invariant
                limit as int <= read_limit(len),
                buf@.len() == pos,
            ensures
                buf@.len() <= limit,
            decreases limit - pos,
        {
            let (offset_high, offset_low, le) = next_request(limit, pos);
            let fragment = match self.transceive(
                ctx,
                Command::read_binary(offset_high, offset_low, le),
            ) {
                Ok(f) => f,
                Err(e) => {
                    return Err(e);
                },
            };
            let appended = match accept_fragment(&mut buf, fragment, le) {
                Ok(n) => n,
                Err(e) => {
                    return Err(e);
                },
            };
            pos = pos + appended;
            if appended < le as u16 {
                break ;
            }
        }
        Ok(buf)
    }

    /// Verifies the PIN against the reference data of the selected EF. An
    /// empty PIN queries the status without authenticating.
    pub fn verify(&self, ctx: Ctx, pin: Vec<u8>) -> (r: Result<(), Error>)
        requires
            pin@.len() <= 255,
        ensures
            r matches Err(e) ==> (e matches Error::VerificationFailed(n) ==> n <= 15),
    {
        match self.transceive(ctx, Command::verify(VERIFY_P2, pin)) {
            Ok(_) => Ok(()),
            Err(e) => Err(e),
        }
    }

    /// Computes a signature over the digest using the selected key.
    pub fn sign(&self, ctx: Ctx, digest: Vec<u8>) -> (r: Result<Vec<u8>, Error>)
        requires
            digest@.len() <= 255,
        ensures
            r matches Err(e) ==> (e matches Error::VerificationFailed(n) ==> n <= 15),
    {
        self.transceive(
            ctx,
            Command::new_with_payload_le(SIGN_CLA, SIGN_INS, SIGN_P1, SIGN_P2, 0, digest),
        )
    }

    /// Selects an EF then verifies the PIN using the EF, short-circuiting on
    /// the first failure.
    pub fn verify_pin(&self, ctx: Ctx, ef: [u8; 2], pin: Vec<u8>) -> (r: Result<(), Error>)
        requires
            pin@.len() <= 255,
        ensures
            r matches Err(e) ==> (e matches Error::VerificationFailed(n) ==> n <= 15),
    {
        match self.select_ef(ctx, vec![ef[0], ef[1]]) {
            Ok(_) => self.verify(ctx, pin),
            Err(e) => Err(e),
        }
    }

    /// Queries how many verification attempts remain for the PIN of the EF
    /// by verifying an empty PIN: success means the PIN is not blocked and
    /// reports zero, a verification-failed status reports its count, and any
    /// other failure propagates unchanged — never coerced into a count.
    pub fn pin_status(&self, ctx: Ctx, ef: [u8; 2]) -> (r: Result<u8, Error>)
        ensures
            r matches Ok(n) ==> n <= 15,
            r matches Err(e) ==> !(e matches Error::VerificationFailed(_)),
    {
        count_of(self.verify_pin(ctx, ef, Vec::new()))
    }

    /// Extracts the size of the current file by reading the first octets of
    /// its DER header: the result is the entire object size, header
    /// included, and bounds the subsequent full read. A header that is
    /// malformed, unsupported, or declares a size beyond what the two offset
    /// bytes can address is a protocol error.
    pub fn read_der_size(&self, ctx: Ctx) -> (r: Result<u16, Error>)
        ensures
            r matches Err(e) ==> (e matches Error::VerificationFailed(n) ==> n <= 15),
    {
        let header = match self.read(ctx, Some(7)) {
            Ok(h) => h,
            Err(e) => {
                return Err(e);
            },
        };
        size_from_header(header.as_slice())
    }
}

} // verus!
