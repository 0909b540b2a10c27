use std::cell::RefCell;
use std::rc::Rc;

use jpki::nfc::{Error, Handler};
use jpki::ClientForAuth;

/// A transport backed by a tiny card image good enough for the client: it
/// accepts the Crypto AP's DF, knows the authentication PIN file, and
/// serves a short DER blob as the authentication certificate.
struct ClientCard {
    selected: Rc<RefCell<Vec<u8>>>,
    certificate: Vec<u8>,
}

const CRYPTO_DF: [u8; 10] = [0xD3, 0x92, 0xF0, 0x00, 0x26, 0x01, 0x00, 0x00, 0x00, 0x01];

impl Handler<()> for ClientCard {
    fn handle(&self, _ctx: (), request: &[u8]) -> Result<Vec<u8>, Error> {
        let ins = request[1];
        let p1 = request[2];
        let p2 = request[3];
        match ins {
            0xA4 => {
                let lc = request[4] as usize;
                let name = request[5..5 + lc].to_vec();
                if p1 == 0x04 {
                    if name == CRYPTO_DF.to_vec() {
                        Ok(vec![0x90, 0x00])
                    } else {
                        Ok(vec![0x6A, 0x82])
                    }
                } else {
                    *self.selected.borrow_mut() = name;
                    Ok(vec![0x90, 0x00])
                }
            }
            0x20 => {
                let payload = if request.len() <= 4 {
                    Vec::new()
                } else {
                    let lc = request[4] as usize;
                    request[5..5 + lc].to_vec()
                };
                if payload == b"1234".to_vec() {
                    Ok(vec![0x90, 0x00])
                } else {
                    Ok(vec![0x63, 0xC2])
                }
            }
            0xB0 => {
                let offset = ((p1 as usize) << 8) | p2 as usize;
                let le = request[4] as usize;
                let content = &self.certificate;
                let start = offset.min(content.len());
                let end = (offset + le).min(content.len());
                let mut response = content[start..end].to_vec();
                response.push(0x90);
                response.push(0x00);
                Ok(response)
            }
            0x2A => {
                let mut response = vec![0xA5u8; 8];
                response.push(0x90);
                response.push(0x00);
                Ok(response)
            }
            _ => Ok(vec![0x6D, 0x00]),
        }
    }
}

fn client_card() -> ClientCard {
    // SEQUENCE of four content octets; not a real certificate, but a
    // well-formed DER object for the read path.
    let certificate = vec![0x30, 0x04, 0x0A, 0x0B, 0x0C, 0x0D];
    ClientCard {
        selected: Rc::new(RefCell::new(Vec::new())),
        certificate,
    }
}

#[test]
fn client_signs_after_unlocking_the_key() {
    let client = ClientForAuth::create((), Box::new(client_card())).unwrap();
    let signature = client
        .sign((), b"1234".to_vec(), b"a document".to_vec())
        .unwrap();
    assert_eq!(signature, vec![0xA5; 8]);
}

#[test]
fn client_reports_a_wrong_pin() {
    let client = ClientForAuth::create((), Box::new(client_card())).unwrap();
    let result = client.sign((), b"0000".to_vec(), b"a document".to_vec());
    assert_eq!(result.unwrap_err(), Error::VerificationFailed(2));
}

#[test]
fn client_verify_rejects_a_signature_the_certificate_cannot_explain() {
    let client = ClientForAuth::create((), Box::new(client_card())).unwrap();
    let verdict = client
        .verify((), b"a document".to_vec(), vec![0x00; 128])
        .unwrap();
    assert!(!verdict);
}

struct NoCard;

impl Handler<()> for NoCard {
    fn handle(&self, _ctx: (), _request: &[u8]) -> Result<Vec<u8>, Error> {
        Ok(vec![0x6A, 0x82])
    }
}

#[test]
fn client_creation_fails_without_the_crypto_df() {
    let error = match ClientForAuth::create((), Box::new(NoCard)) {
        Ok(_) => panic!("creation must fail without the DF"),
        Err(e) => e,
    };
    assert_eq!(error, Error::CardRejected(0x6A, 0x82));
}
