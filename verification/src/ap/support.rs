//! Support AP: reads the personal identification number and the text
//! attributes recorded in the card.

use std::rc::Rc;
use vstd::prelude::*;

use crate::card::Card;
use crate::der;
use crate::der::{der_nth_value, der_tlv_ok, der_tlv_seq_ok, der_value, utf8_lossy_of};
use crate::nfc::{Error, Handler};

verus! {

/// The 10-byte application identifier of the Support AP's dedicated file.
pub open spec fn spec_df_name() -> Seq<u8> {
    seq![0xD3u8, 0x92u8, 0x10u8, 0x00u8, 0x31u8, 0x00u8, 0x01u8, 0x01u8, 0x04u8, 0x08u8]
}

fn df_name() -> (r: Vec<u8>)
    ensures
        r@ == spec_df_name(),
{
    let r = vec![0xD3u8, 0x92, 0x10, 0x00, 0x31, 0x00, 0x01, 0x01, 0x04, 0x08];
    proof {
        assert(r@ =~= spec_df_name());
    }
    r
}

/// The sex recorded in the attributes.
#[derive(Clone, Copy, Debug, PartialEq, Eq, Structural)]
pub enum Sex {
    Male,
    Female,
    NotApplicable,
    Unknown,
}

/// The sex a recorded code decodes to: the digit 1 is male, 2 female,
/// 9 not applicable, anything else unknown.
pub open spec fn spec_sex_of(code: Seq<u8>) -> Sex {
    if code == seq![0x31u8] {
        Sex::Male
    } else if code == seq![0x32u8] {
        Sex::Female
    } else if code == seq![0x39u8] {
        Sex::NotApplicable
    } else {
        Sex::Unknown
    }
}

/// Decodes a sex code.
fn sex_of(code: &Vec<u8>) -> (r: Sex)
    ensures
        r == spec_sex_of(code@),
{
    if code.len() == 1 {
        let b = code[0];
        if b == 0x31 {
            assert(code@ =~= seq![0x31u8]);
            Sex::Male
        } else if b == 0x32 {
            assert(code@ =~= seq![0x32u8]);
            Sex::Female
        } else if b == 0x39 {
            assert(code@ =~= seq![0x39u8]);
            Sex::NotApplicable
        } else {
            Sex::Unknown
        }
    } else {
        Sex::Unknown
    }
}

/// Decodes an identification-number record: the content octets of its
/// single TLV, as UTF-8 text with lossy replacement. A buffer that holds no
/// complete TLV is a protocol error.
fn my_number_from_bytes(buf: &[u8]) -> (r: Result<String, Error>)
    ensures
        r is Ok <==> der_tlv_ok(buf@),
        r matches Ok(s) ==> s@ == utf8_lossy_of(der_value(buf@)),
        r matches Err(e) ==> e == Error::Protocol,
{
    let mut reader = der::Reader::new(buf);
    if !reader.has_tlv() {
        return Err(Error::Protocol);
    }
    Ok(reader.read_string())
}

/// The text attributes recorded in the card: a record header followed by
/// name, address, date of birth, and a sex code, as five TLVs inside one
/// DER SEQUENCE.
pub struct Attributes {
    pub header: Vec<u8>,
    pub name: String,
    pub address: String,
    pub date_of_birth: String,
    pub sex: Sex,
}

impl Attributes {
    /// Decodes an attributes record: one DER SEQUENCE holding the record
    /// header and the four attribute fields. A buffer without that shape is
    /// a protocol error.
    pub fn from_bytes(buf: &[u8]) -> (r: Result<Attributes, Error>)
        ensures
            r is Ok <==> der_tlv_ok(buf@) && der_tlv_seq_ok(der_value(buf@), 5),
            r matches Ok(a) ==> a.name@ == utf8_lossy_of(der_nth_value(der_value(buf@), 1))
                && a.address@ == utf8_lossy_of(der_nth_value(der_value(buf@), 2))
                && a.date_of_birth@ == utf8_lossy_of(der_nth_value(der_value(buf@), 3)) && a.sex
                == spec_sex_of(der_nth_value(der_value(buf@), 4)),
            r matches Err(e) ==> e == Error::Protocol,
    {
        let mut outer = der::Reader::new(buf);
        if !outer.has_tlv() {
            return Err(Error::Protocol);
        }
        let value = outer.read_auto();
        let fields = match der::read_tlvs(value, 5) {
            Some(fields) => fields,
            None => {
                return Err(Error::Protocol);
            },
        };
        let mut fields = fields;
        let sex = sex_of(&fields[4]);
        let date_of_birth = der::utf8_lossy(fields[3].as_slice());
        let address = der::utf8_lossy(fields[2].as_slice());
        let name = der::utf8_lossy(fields[1].as_slice());
        let header = fields.remove(0);
        Ok(Attributes { header, name, address, date_of_birth, sex })
    }
}

/// An AP to read the personal identification number and the text attributes.
pub struct SupportAp<T, Ctx> {
    card: Rc<Card<T, Ctx>>,
}

impl<T, Ctx> SupportAp<T, Ctx> where T: Handler<Ctx>, Ctx: Copy {
    /// Opens the AP in the card by selecting the DF.
    pub fn open(ctx: Ctx, card: Rc<Card<T, Ctx>>) -> (r: Result<SupportAp<T, Ctx>, Error>)
        ensures
            r matches Err(e) ==> (e matches Error::VerificationFailed(n) ==> n <= 15),
    {
        let ap = SupportAp { card };
        match ap.card.select_df(ctx, df_name()) {
            Ok(_) => Ok(ap),
            Err(e) => Err(e),
        }
    }

    /// Reads the "My Number" from the card as DER-encoded ASN.1 data: a
    /// fixed-size record of 17 octets at most.
    pub fn read_my_number_raw(&self, ctx: Ctx, pin: Vec<u8>) -> (r: Result<Vec<u8>, Error>)
        requires
            pin@.len() <= 255,
        ensures
            r matches Ok(b) ==> b@.len() <= 17,
            r matches Err(e) ==> (e matches Error::VerificationFailed(n) ==> n <= 15),
    {
        match self.verify_pin(ctx, pin) {
            Ok(_) => (),
            Err(e) => {
                return Err(e);
            },
        }
        match self.card.select_ef(ctx, vec![0x00, 0x01]) {
            Ok(_) => self.card.read(ctx, Some(17)),
            Err(e) => Err(e),
        }
    }

    /// Reads the "My Number" from the card as a string: the content octets
    /// of the record's single TLV, decoded as UTF-8.
    pub fn read_my_number(&self, ctx: Ctx, pin: Vec<u8>) -> (r: Result<String, Error>)
        requires
            pin@.len() <= 255,
        ensures
            r matches Err(e) ==> (e matches Error::VerificationFailed(n) ==> n <= 15),
    {
        match self.read_my_number_raw(ctx, pin) {
            Ok(raw) => my_number_from_bytes(raw.as_slice()),
            Err(e) => Err(e),
        }
    }

    /// Reads the text attributes from the card as DER-encoded ASN.1 data.
    pub fn read_attributes_raw(&self, ctx: Ctx, pin: Vec<u8>) -> (r: Result<Vec<u8>, Error>)
        requires
            pin@.len() <= 255,
        ensures
            r matches Ok(b) ==> b@.len() <= 0xFFFF,
            r matches Err(e) ==> (e matches Error::VerificationFailed(n) ==> n <= 15),
    {
        match self.verify_pin(ctx, pin) {
            Ok(_) => (),
            Err(e) => {
                return Err(e);
            },
        }
        match self.card.select_ef(ctx, vec![0x00, 0x02]) {
            Ok(_) => (),
            Err(e) => {
                return Err(e);
            },
        }
        let size = match self.card.read_der_size(ctx) {
            Ok(s) => s,
            Err(e) => {
                return Err(e);
            },
        };
        self.card.read(ctx, Some(size))
    }

    /// Reads the text attributes from the card as decoded data.
    pub fn read_attributes(&self, ctx: Ctx, pin: Vec<u8>) -> (r: Result<Attributes, Error>)
        requires
            pin@.len() <= 255,
        ensures
            r matches Err(e) ==> (e matches Error::VerificationFailed(n) ==> n <= 15),
    {
        match self.read_attributes_raw(ctx, pin) {
            Ok(raw) => Attributes::from_bytes(raw.as_slice()),
            Err(e) => Err(e),
        }
    }

    /// Gets how many verification attempts remain for the PIN; zero means
    /// the PIN is not blocked.
    pub fn pin_status(&self, ctx: Ctx) -> (r: Result<u8, Error>)
        ensures
            r matches Ok(n) ==> n <= 15,
            r matches Err(e) ==> !(e matches Error::VerificationFailed(_)),
    {
        self.card.pin_status(ctx, [0x00, 0x11])
    }

    fn verify_pin(&self, ctx: Ctx, pin: Vec<u8>) -> (r: Result<(), Error>)
        requires
            pin@.len() <= 255,
        ensures
            r matches Err(e) ==> (e matches Error::VerificationFailed(n) ==> n <= 15),
    {
        self.card.verify_pin(ctx, [0x00, 0x11], pin)
    }
}

} // verus!
