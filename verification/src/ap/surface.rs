//! Card Surface AP: provides the information indicated on the card surface.

use std::rc::Rc;
use vstd::prelude::*;

use crate::card::Card;
use crate::der;
use crate::der::{der_nth_value, der_tlv_ok, der_tlv_seq_ok, der_value};
use crate::nfc::{Error, Handler};

verus! {

/// The 10-byte application identifier of the Surface AP's dedicated file.
pub open spec fn spec_df_name() -> Seq<u8> {
    seq![0xD3u8, 0x92u8, 0x10u8, 0x00u8, 0x31u8, 0x00u8, 0x01u8, 0x01u8, 0x04u8, 0x02u8]
}

fn df_name() -> (r: Vec<u8>)
    ensures
        r@ == spec_df_name(),
{
    let r = vec![0xD3u8, 0x92, 0x10, 0x00, 0x31, 0x00, 0x01, 0x01, 0x04, 0x02];
    proof {
        assert(r@ =~= spec_df_name());
    }
    r
}

/// The PIN that unlocks the surface record; its kind selects which
/// verification EF is used.
pub enum Pin {
    /// My Number (12 digits).
    /// Information from both front and back is available.
    A(Vec<u8>),
    /// DoB in 'YYYYMMDD' format + Expiry date in 'YYYY' format + PIN
    /// (4 digits). Information from only front is available.
    B(Vec<u8>),
}

impl Pin {
    /// The octets of the PIN itself, whichever kind it is.
    pub open spec fn spec_bytes(&self) -> Seq<u8> {
        match *self {
            Pin::A(ref pin) => pin@,
            Pin::B(ref pin) => pin@,
        }
    }
}

/// The surface record: a record header and nine raw byte fields, extracted
/// positionally from one DER SEQUENCE.
pub struct Surface {
    pub header: Vec<u8>,
    pub date_of_birth: Vec<u8>,
    pub sex: Vec<u8>,
    pub public_key: Vec<u8>,
    pub name: Vec<u8>,
    pub address: Vec<u8>,
    pub photo: Vec<u8>,
    pub signature: Vec<u8>,
    pub expiry_date: Vec<u8>,
    pub code: Vec<u8>,
}

impl Surface {
    /// Decodes a surface record: one DER SEQUENCE holding the record header
    /// and the nine surface fields, in fixed order. A buffer without that
    /// shape is a protocol error.
    pub fn from_bytes(buf: &[u8]) -> (r: Result<Surface, Error>)
        ensures
            r is Ok <==> der_tlv_ok(buf@) && der_tlv_seq_ok(der_value(buf@), 10),
            r matches Ok(s) ==> s.date_of_birth@ == der_nth_value(der_value(buf@), 1) && s.sex@
                == der_nth_value(der_value(buf@), 2) && s.public_key@ == der_nth_value(
                der_value(buf@),
                3,
            ) && s.name@ == der_nth_value(der_value(buf@), 4) && s.address@ == der_nth_value(
                der_value(buf@),
                5,
            ) && s.photo@ == der_nth_value(der_value(buf@), 6) && s.signature@ == der_nth_value(
                der_value(buf@),
                7,
            ) && s.expiry_date@ == der_nth_value(der_value(buf@), 8) && s.code@ == der_nth_value(
                der_value(buf@),
                9,
            ),
            r matches Err(e) ==> e == Error::Protocol,
    {
        let mut outer = der::Reader::new(buf);
        if !outer.has_tlv() {
            return Err(Error::Protocol);
        }
        let value = outer.read_auto();
        let fields = match der::read_tlvs(value, 10) {
            Some(fields) => fields,
            None => {
                return Err(Error::Protocol);
            },
        };
        let mut fields = fields;
        let code = fields.pop().unwrap();
        let expiry_date = fields.pop().unwrap();
        let signature = fields.pop().unwrap();
        let photo = fields.pop().unwrap();
        let address = fields.pop().unwrap();
        let name = fields.pop().unwrap();
        let public_key = fields.pop().unwrap();
        let sex = fields.pop().unwrap();
        let date_of_birth = fields.pop().unwrap();
        let header = fields.pop().unwrap();
        Ok(
            Surface {
                header,
                date_of_birth,
                sex,
                public_key,
                name,
                address,
                photo,
                signature,
                expiry_date,
                code,
            },
        )
    }
}

/// An AP to read the information indicated on the card surface.
pub struct SurfaceAp<T, Ctx> {
    card: Rc<Card<T, Ctx>>,
}

impl<T, Ctx> SurfaceAp<T, Ctx> where T: Handler<Ctx>, Ctx: Copy {
    /// Opens the AP in the card by selecting the DF.
    pub fn open(ctx: Ctx, card: Rc<Card<T, Ctx>>) -> (r: Result<SurfaceAp<T, Ctx>, Error>)
        ensures
            r matches Err(e) ==> (e matches Error::VerificationFailed(n) ==> n <= 15),
    {
        let ap = SurfaceAp { card };
        match ap.card.select_df(ctx, df_name()) {
            Ok(_) => Ok(ap),
            Err(e) => Err(e),
        }
    }

    /// Reads the surface information as DER-encoded ASN.1 data, verifying
    /// the PIN of the kind the caller chose first.
    pub fn read_surface_raw(&self, ctx: Ctx, pin: Pin) -> (r: Result<Vec<u8>, Error>)
        requires
            pin.spec_bytes().len() <= 255,
        ensures
            r matches Ok(b) ==> b@.len() <= 0xFFFF,
            r matches Err(e) ==> (e matches Error::VerificationFailed(n) ==> n <= 15),
    {
        let verified = match pin {
            Pin::A(pin) => self.verify_pin_a(ctx, pin),
            Pin::B(pin) => self.verify_pin_b(ctx, pin),
        };
        match verified {
            Ok(_) => (),
            Err(e) => {
                return Err(e);
            },
        }
        match self.card.select_ef(ctx, vec![0x00, 0x02]) {
            Ok(_) => (),
            Err(e) => {
                return Err(e);
            },
        }
        let size = match self.card.read_der_size(ctx) {
            Ok(s) => s,
            Err(e) => {
                return Err(e);
            },
        };
        self.card.read(ctx, Some(size))
    }

    /// Reads the surface information as decoded data.
    pub fn read_surface(&self, ctx: Ctx, pin: Pin) -> (r: Result<Surface, Error>)
        requires
            pin.spec_bytes().len() <= 255,
        ensures
            r matches Err(e) ==> (e matches Error::VerificationFailed(n) ==> n <= 15),
    {
        match self.read_surface_raw(ctx, pin) {
            Ok(raw) => Surface::from_bytes(raw.as_slice()),
            Err(e) => Err(e),
        }
    }

    /// Gets how many verification attempts remain for the kind-A PIN; zero
    /// means the PIN is not blocked.
    pub fn pin_a_status(&self, ctx: Ctx) -> (r: Result<u8, Error>)
        ensures
            r matches Ok(n) ==> n <= 15,
            r matches Err(e) ==> !(e matches Error::VerificationFailed(_)),
    {
        self.card.pin_status(ctx, [0x00, 0x13])
    }

    /// Gets how many verification attempts remain for the kind-B PIN; zero
    /// means the PIN is not blocked.
    pub fn pin_b_status(&self, ctx: Ctx) -> (r: Result<u8, Error>)
        ensures
            r matches Ok(n) ==> n <= 15,
            r matches Err(e) ==> !(e matches Error::VerificationFailed(_)),
    {
        self.card.pin_status(ctx, [0x00, 0x12])
    }

    fn verify_pin_a(&self, ctx: Ctx, pin: Vec<u8>) -> (r: Result<(), Error>)
        requires
            pin@.len() <= 255,
        ensures
            r matches Err(e) ==> (e matches Error::VerificationFailed(n) ==> n <= 15),
    {
        self.card.verify_pin(ctx, [0x00, 0x13], pin)
    }

    fn verify_pin_b(&self, ctx: Ctx, pin: Vec<u8>) -> (r: Result<(), Error>)
        requires
            pin@.len() <= 255,
        ensures
            r matches Err(e) ==> (e matches Error::VerificationFailed(n) ==> n <= 15),
    {
        self.card.verify_pin(ctx, [0x00, 0x12], pin)
    }
}

} // verus!
