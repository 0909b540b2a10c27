use std::cell::RefCell;
use std::rc::Rc;

use jpki::ap::crypto::{CertType, CryptoAp};
use jpki::ap::support::{Sex, SupportAp};
use jpki::ap::surface::{Pin, SurfaceAp};
use jpki::nfc::{Error, Handler};
use jpki::Card;

const INS_SELECT: u8 = 0xA4;
const INS_VERIFY: u8 = 0x20;
const INS_READ: u8 = 0xB0;
const INS_SIGN: u8 = 0x2A;

/// A scripted card simulator: a set of dedicated files, elementary files
/// with contents, and PIN files with a remaining-attempts counter.
struct ScriptCard {
    dfs: Vec<Vec<u8>>,
    files: Vec<(Vec<u8>, Vec<u8>)>,
    pins: Vec<(Vec<u8>, Vec<u8>)>,
    state: Rc<RefCell<ScriptState>>,
}

struct ScriptState {
    log: Vec<Vec<u8>>,
    selected: Vec<u8>,
    attempts: u8,
}

impl ScriptCard {
    fn new(
        dfs: Vec<Vec<u8>>,
        files: Vec<(Vec<u8>, Vec<u8>)>,
        pins: Vec<(Vec<u8>, Vec<u8>)>,
    ) -> (Self, Rc<RefCell<ScriptState>>) {
        let state = Rc::new(RefCell::new(ScriptState {
            log: Vec::new(),
            selected: Vec::new(),
            attempts: 3,
        }));
        let card = ScriptCard {
            dfs,
            files,
            pins,
            state: Rc::clone(&state),
        };
        (card, state)
    }

    fn respond(&self, request: &[u8]) -> Vec<u8> {
        let ins = request[1];
        let p1 = request[2];
        let p2 = request[3];
        match ins {
            INS_SELECT => {
                let lc = request[4] as usize;
                let name = request[5..5 + lc].to_vec();
                if p1 == 0x04 {
                    if self.dfs.contains(&name) {
                        vec![0x90, 0x00]
                    } else {
                        vec![0x6A, 0x82]
                    }
                } else if self.files.iter().any(|(id, _)| *id == name)
                    || self.pins.iter().any(|(id, _)| *id == name)
                {
                    self.state.borrow_mut().selected = name;
                    vec![0x90, 0x00]
                } else {
                    vec![0x6A, 0x82]
                }
            }
            INS_VERIFY => {
                let payload = if request.len() <= 4 {
                    Vec::new()
                } else {
                    let lc = request[4] as usize;
                    request[5..5 + lc].to_vec()
                };
                let selected = self.state.borrow().selected.clone();
                let expected = self
                    .pins
                    .iter()
                    .find(|(id, _)| *id == selected)
                    .map(|(_, pin)| pin.clone());
                let mut state = self.state.borrow_mut();
                match expected {
                    Some(_) if payload.is_empty() => vec![0x63, 0xC0 | state.attempts],
                    Some(pin) if payload == pin => vec![0x90, 0x00],
                    Some(_) => {
                        state.attempts -= 1;
                        vec![0x63, 0xC0 | state.attempts]
                    }
                    None => vec![0x6A, 0x82],
                }
            }
            INS_READ => {
                let offset = ((p1 as usize) << 8) | p2 as usize;
                let le = request[4] as usize;
                let selected = self.state.borrow().selected.clone();
                let content = self
                    .files
                    .iter()
                    .find(|(id, _)| *id == selected)
                    .map(|(_, c)| c.clone())
                    .unwrap_or_default();
                let start = offset.min(content.len());
                let end = (offset + le).min(content.len());
                let mut response = content[start..end].to_vec();
                response.push(0x90);
                response.push(0x00);
                response
            }
            INS_SIGN => {
                let mut response = vec![0x51u8; 16];
                response.push(0x90);
                response.push(0x00);
                response
            }
            _ => vec![0x6D, 0x00],
        }
    }
}

impl Handler<()> for ScriptCard {
    fn handle(&self, _ctx: (), request: &[u8]) -> Result<Vec<u8>, Error> {
        self.state.borrow_mut().log.push(request.to_vec());
        Ok(self.respond(request))
    }
}

/// A transport that answers each exchange with the next canned response.
struct CannedCard {
    responses: RefCell<Vec<Result<Vec<u8>, Error>>>,
}

impl CannedCard {
    fn new(mut responses: Vec<Result<Vec<u8>, Error>>) -> Self {
        responses.reverse();
        CannedCard {
            responses: RefCell::new(responses),
        }
    }
}

impl Handler<()> for CannedCard {
    fn handle(&self, _ctx: (), _request: &[u8]) -> Result<Vec<u8>, Error> {
        self.responses.borrow_mut().pop().unwrap_or(Ok(vec![0x6D, 0x00]))
    }
}

fn tlv(tag: u8, content: &[u8]) -> Vec<u8> {
    assert!(content.len() <= 0x7F);
    let mut out = vec![tag, content.len() as u8];
    out.extend_from_slice(content);
    out
}

const CRYPTO_DF: [u8; 10] = [0xD3, 0x92, 0xF0, 0x00, 0x26, 0x01, 0x00, 0x00, 0x00, 0x01];
const SUPPORT_DF: [u8; 10] = [0xD3, 0x92, 0x10, 0x00, 0x31, 0x00, 0x01, 0x01, 0x04, 0x08];
const SURFACE_DF: [u8; 10] = [0xD3, 0x92, 0x10, 0x00, 0x31, 0x00, 0x01, 0x01, 0x04, 0x02];

/// A DER object whose entire size (header plus content) is exactly 300
/// bytes: SEQUENCE with a two-octet length of 296.
fn der_blob_300() -> Vec<u8> {
    let mut blob = vec![0x30, 0x82, 0x01, 0x28];
    blob.extend(std::iter::repeat(0xCE).take(296));
    blob
}

#[test]
fn read_chunks_without_ever_requesting_more_than_255() {
    let mut content = der_blob_300();
    content.extend(std::iter::repeat(0x77).take(100));
    let (mock, state) = ScriptCard::new(vec![], vec![(vec![0x00, 0x01], content.clone())], vec![]);
    let card = Card::new(Box::new(mock));
    card.select_ef((), vec![0x00, 0x01]).unwrap();
    let bytes = card.read((), Some(300)).unwrap();
    assert_eq!(bytes.len(), 300);
    assert_eq!(bytes, content[..300].to_vec());

    let reads: Vec<Vec<u8>> = state
        .borrow()
        .log
        .iter()
        .filter(|req| req[1] == INS_READ)
        .cloned()
        .collect();
    assert!(reads.len() >= 2);
    let mut last_offset: i64 = -1;
    let mut total: usize = 0;
    for read in &reads {
        let offset = ((read[2] as i64) << 8) | read[3] as i64;
        assert!(offset > last_offset, "offsets must strictly increase");
        last_offset = offset;
        let le = read[4] as usize;
        assert!(le >= 1 && le <= 255, "never request more than 255 bytes");
        total += le;
    }
    assert_eq!(total, 300);
}

#[test]
fn read_without_a_maximum_stops_at_the_short_fragment() {
    let content = vec![0x3Cu8; 300];
    let (mock, _state) = ScriptCard::new(vec![], vec![(vec![0x00, 0x01], content.clone())], vec![]);
    let card = Card::new(Box::new(mock));
    card.select_ef((), vec![0x00, 0x01]).unwrap();
    let bytes = card.read((), None).unwrap();
    assert_eq!(bytes, content);
}

#[test]
fn read_returns_what_is_there_when_the_file_is_shorter() {
    let content = vec![0x5Au8; 100];
    let (mock, _state) = ScriptCard::new(vec![], vec![(vec![0x00, 0x01], content.clone())], vec![]);
    let card = Card::new(Box::new(mock));
    card.select_ef((), vec![0x00, 0x01]).unwrap();
    let bytes = card.read((), Some(300)).unwrap();
    assert_eq!(bytes, content);
}

#[test]
fn pin_status_is_idempotent_without_failed_attempts() {
    let (mock, _state) = ScriptCard::new(
        vec![],
        vec![],
        vec![(vec![0x00, 0x18], b"1234".to_vec())],
    );
    let card = Card::new(Box::new(mock));
    let first = card.pin_status((), [0x00, 0x18]).unwrap();
    let second = card.pin_status((), [0x00, 0x18]).unwrap();
    assert_eq!(first, second);
    assert_eq!(first, 3);
}

#[test]
fn pin_status_counts_down_after_a_failed_verify() {
    let (mock, _state) = ScriptCard::new(
        vec![],
        vec![],
        vec![(vec![0x00, 0x18], b"1234".to_vec())],
    );
    let card = Card::new(Box::new(mock));
    assert_eq!(card.pin_status((), [0x00, 0x18]).unwrap(), 3);
    assert_eq!(
        card.verify_pin((), [0x00, 0x18], b"9999".to_vec()).unwrap_err(),
        Error::VerificationFailed(2)
    );
    assert_eq!(card.pin_status((), [0x00, 0x18]).unwrap(), 2);
}

#[test]
fn pin_status_reports_zero_when_the_pin_is_unlocked() {
    let mock = CannedCard::new(vec![Ok(vec![0x90, 0x00]), Ok(vec![0x90, 0x00])]);
    let card = Card::new(Box::new(mock));
    assert_eq!(card.pin_status((), [0x00, 0x18]).unwrap(), 0);
}

#[test]
fn pin_status_never_coerces_unrelated_failures_into_a_count() {
    let mock = CannedCard::new(vec![Ok(vec![0x90, 0x00]), Ok(vec![0x6A, 0x82])]);
    let card = Card::new(Box::new(mock));
    assert_eq!(
        card.pin_status((), [0x00, 0x18]).unwrap_err(),
        Error::CardRejected(0x6A, 0x82)
    );
}

#[test]
fn read_der_size_computes_the_entire_object_size() {
    let (mock, _state) = ScriptCard::new(
        vec![],
        vec![(vec![0x00, 0x01], vec![0x30, 0x05, 0x01, 0x02, 0x03, 0x04, 0x05])],
        vec![],
    );
    let card = Card::new(Box::new(mock));
    card.select_ef((), vec![0x00, 0x01]).unwrap();
    assert_eq!(card.read_der_size(()).unwrap(), 7);
}

#[test]
fn read_der_size_handles_the_long_length_form() {
    let (mock, _state) = ScriptCard::new(
        vec![],
        vec![(vec![0x00, 0x01], der_blob_300())],
        vec![],
    );
    let card = Card::new(Box::new(mock));
    card.select_ef((), vec![0x00, 0x01]).unwrap();
    assert_eq!(card.read_der_size(()).unwrap(), 300);
}

#[test]
fn reading_sign_certificate_with_wrong_pin_stops_before_the_certificate_file() {
    let (mock, state) = ScriptCard::new(
        vec![CRYPTO_DF.to_vec()],
        vec![(vec![0x00, 0x01], der_blob_300())],
        vec![(vec![0x00, 0x1B], b"123456".to_vec())],
    );
    let card = std::rc::Rc::new(Card::new(Box::new(mock)));
    let ap = CryptoAp::open((), std::rc::Rc::clone(&card)).unwrap();
    let result = ap.read_certificate((), CertType::Sign, b"000000".to_vec());
    assert_eq!(result.unwrap_err(), Error::VerificationFailed(2));

    let log = state.borrow().log.clone();
    for request in &log {
        if request[1] == INS_SELECT && request[2] == 0x02 {
            assert_ne!(
                &request[5..],
                &[0x00, 0x01],
                "the certificate EF must never be selected after a failed PIN"
            );
        }
        assert_ne!(request[1], INS_READ, "no read may be issued after a failed PIN");
    }
}

#[test]
fn reading_auth_certificate_needs_no_pin() {
    let blob = der_blob_300();
    let (mock, state) = ScriptCard::new(
        vec![CRYPTO_DF.to_vec()],
        vec![(vec![0x00, 0x0A], blob.clone())],
        vec![(vec![0x00, 0x1B], b"123456".to_vec())],
    );
    let card = std::rc::Rc::new(Card::new(Box::new(mock)));
    let ap = CryptoAp::open((), std::rc::Rc::clone(&card)).unwrap();
    let certificate = ap.read_certificate((), CertType::Auth, vec![]).unwrap();
    assert_eq!(certificate, blob);
    let log = state.borrow().log.clone();
    assert!(log.iter().all(|req| req[1] != INS_VERIFY));
}

#[test]
fn cert_types_map_to_distinct_files_and_only_sign_needs_a_pin() {
    let types = [CertType::Auth, CertType::AuthCA, CertType::Sign, CertType::SignCA];
    let ids: Vec<[u8; 2]> = types.iter().map(|ty| ty.into_efid()).collect();
    for i in 0..ids.len() {
        for j in 0..ids.len() {
            if i != j {
                assert_ne!(ids[i], ids[j]);
            }
        }
    }
    assert!(!CertType::Auth.is_pin_required());
    assert!(!CertType::AuthCA.is_pin_required());
    assert!(CertType::Sign.is_pin_required());
    assert!(!CertType::SignCA.is_pin_required());
}

#[test]
fn signing_verifies_the_pin_then_signs() {
    let (mock, _state) = ScriptCard::new(
        vec![CRYPTO_DF.to_vec()],
        vec![
            (vec![0x00, 0x17], vec![]),
            (vec![0x00, 0x1A], vec![]),
        ],
        vec![
            (vec![0x00, 0x18], b"1234".to_vec()),
            (vec![0x00, 0x1B], b"123456".to_vec()),
        ],
    );
    let card = std::rc::Rc::new(Card::new(Box::new(mock)));
    let ap = CryptoAp::open((), std::rc::Rc::clone(&card)).unwrap();
    let signature = ap.auth((), b"1234".to_vec(), vec![0xD1; 35]).unwrap();
    assert_eq!(signature, vec![0x51; 16]);
    let signature = ap.sign((), b"123456".to_vec(), vec![0xD1; 35]).unwrap();
    assert_eq!(signature, vec![0x51; 16]);
    assert_eq!(ap.auth_pin_status(()).unwrap(), 3);
    assert_eq!(ap.sign_pin_status(()).unwrap(), 3);
}

#[test]
fn wrong_auth_pin_aborts_signing() {
    let (mock, state) = ScriptCard::new(
        vec![CRYPTO_DF.to_vec()],
        vec![(vec![0x00, 0x17], vec![])],
        vec![(vec![0x00, 0x18], b"1234".to_vec())],
    );
    let card = std::rc::Rc::new(Card::new(Box::new(mock)));
    let ap = CryptoAp::open((), std::rc::Rc::clone(&card)).unwrap();
    let result = ap.auth((), b"0000".to_vec(), vec![0xD1; 35]);
    assert_eq!(result.unwrap_err(), Error::VerificationFailed(2));
    let log = state.borrow().log.clone();
    assert!(log.iter().all(|req| req[1] != INS_SIGN));
}

#[test]
fn support_ap_reads_my_number() {
    let record = tlv(0x10, b"123456789012");
    let (mock, _state) = ScriptCard::new(
        vec![SUPPORT_DF.to_vec()],
        vec![(vec![0x00, 0x01], record)],
        vec![(vec![0x00, 0x11], b"1234".to_vec())],
    );
    let card = std::rc::Rc::new(Card::new(Box::new(mock)));
    let ap = SupportAp::open((), std::rc::Rc::clone(&card)).unwrap();
    let my_number = ap.read_my_number((), b"1234".to_vec()).unwrap();
    assert_eq!(my_number, "123456789012");
}

#[test]
fn truncated_my_number_record_is_a_protocol_error() {
    // The record declares 0x20 content octets but holds only two.
    let (mock, _state) = ScriptCard::new(
        vec![SUPPORT_DF.to_vec()],
        vec![(vec![0x00, 0x01], vec![0x10, 0x20, 0x31, 0x32])],
        vec![(vec![0x00, 0x11], b"1234".to_vec())],
    );
    let card = std::rc::Rc::new(Card::new(Box::new(mock)));
    let ap = SupportAp::open((), std::rc::Rc::clone(&card)).unwrap();
    assert_eq!(
        ap.read_my_number((), b"1234".to_vec()).unwrap_err(),
        Error::Protocol
    );
}

#[test]
fn support_ap_reads_attributes() {
    let mut inner = Vec::new();
    inner.extend(tlv(0xC1, &[0x01, 0x02]));
    inner.extend(tlv(0xC2, "Yamada Hanako".as_bytes()));
    inner.extend(tlv(0xC3, "Tokyo".as_bytes()));
    inner.extend(tlv(0xC4, "19900101".as_bytes()));
    inner.extend(tlv(0xC5, b"2"));
    let mut record = vec![0x30, inner.len() as u8];
    record.extend(inner);
    let (mock, _state) = ScriptCard::new(
        vec![SUPPORT_DF.to_vec()],
        vec![(vec![0x00, 0x02], record)],
        vec![(vec![0x00, 0x11], b"1234".to_vec())],
    );
    let card = std::rc::Rc::new(Card::new(Box::new(mock)));
    let ap = SupportAp::open((), std::rc::Rc::clone(&card)).unwrap();
    let attributes = ap.read_attributes((), b"1234".to_vec()).unwrap();
    assert_eq!(attributes.name, "Yamada Hanako");
    assert_eq!(attributes.address, "Tokyo");
    assert_eq!(attributes.date_of_birth, "19900101");
    assert_eq!(attributes.sex, Sex::Female);
    assert_eq!(ap.pin_status(()).unwrap(), 3);
}

#[test]
fn surface_ap_reads_the_nine_fields() {
    let fields: Vec<Vec<u8>> = (0u8..9).map(|i| vec![i + 1; (i + 1) as usize]).collect();
    let mut inner = tlv(0xC0, &[0xAB]);
    for field in &fields {
        inner.extend(tlv(0xC1, field));
    }
    let mut record = vec![0x30, inner.len() as u8];
    record.extend(inner);
    let (mock, _state) = ScriptCard::new(
        vec![SURFACE_DF.to_vec()],
        vec![(vec![0x00, 0x02], record)],
        vec![
            (vec![0x00, 0x13], b"123456789012".to_vec()),
            (vec![0x00, 0x12], b"199001012030".to_vec()),
        ],
    );
    let card = std::rc::Rc::new(Card::new(Box::new(mock)));
    let ap = SurfaceAp::open((), std::rc::Rc::clone(&card)).unwrap();
    let surface = ap.read_surface((), Pin::A(b"123456789012".to_vec())).unwrap();
    assert_eq!(surface.date_of_birth, fields[0]);
    assert_eq!(surface.sex, fields[1]);
    assert_eq!(surface.public_key, fields[2]);
    assert_eq!(surface.name, fields[3]);
    assert_eq!(surface.address, fields[4]);
    assert_eq!(surface.photo, fields[5]);
    assert_eq!(surface.signature, fields[6]);
    assert_eq!(surface.expiry_date, fields[7]);
    assert_eq!(surface.code, fields[8]);
    assert_eq!(ap.pin_a_status(()).unwrap(), 3);
    assert_eq!(ap.pin_b_status(()).unwrap(), 3);
}

#[test]
fn surface_ap_accepts_the_type_b_pin() {
    let mut record = vec![0x30, 30];
    for _ in 0..10 {
        record.extend(tlv(0xC1, &[0x11]));
    }
    let (mock, _state) = ScriptCard::new(
        vec![SURFACE_DF.to_vec()],
        vec![(vec![0x00, 0x02], record)],
        vec![
            (vec![0x00, 0x13], b"123456789012".to_vec()),
            (vec![0x00, 0x12], b"199001012030".to_vec()),
        ],
    );
    let card = std::rc::Rc::new(Card::new(Box::new(mock)));
    let ap = SurfaceAp::open((), std::rc::Rc::clone(&card)).unwrap();
    let surface = ap.read_surface((), Pin::B(b"199001012030".to_vec())).unwrap();
    assert_eq!(surface.code, vec![0x11]);
}

#[test]
fn transport_failure_surfaces_as_a_transport_error() {
    let mock = CannedCard::new(vec![Err(Error::Transport)]);
    let card = Card::new(Box::new(mock));
    assert_eq!(
        card.select_ef((), vec![0x00, 0x01]).unwrap_err(),
        Error::Transport
    );
}

#[test]
fn empty_response_is_rejected_with_a_zero_status_word() {
    let mock = CannedCard::new(vec![Ok(vec![])]);
    let card = Card::new(Box::new(mock));
    assert_eq!(
        card.select_ef((), vec![0x00, 0x01]).unwrap_err(),
        Error::CardRejected(0x00, 0x00)
    );
}

#[test]
fn oversized_fragment_is_a_protocol_error() {
    let mut oversized = vec![0x99u8; 50];
    oversized.push(0x90);
    oversized.push(0x00);
    let mock = CannedCard::new(vec![Ok(oversized)]);
    let card = Card::new(Box::new(mock));
    assert_eq!(card.read((), Some(10)).unwrap_err(), Error::Protocol);
}

#[test]
fn malformed_der_header_is_a_protocol_error() {
    // The selected file starts with an unsupported five-octet length form.
    let (mock, _state) = ScriptCard::new(
        vec![],
        vec![(vec![0x00, 0x01], vec![0x30, 0x85, 0x01, 0x01, 0x01, 0x01, 0x01])],
        vec![],
    );
    let card = Card::new(Box::new(mock));
    card.select_ef((), vec![0x00, 0x01]).unwrap();
    assert_eq!(card.read_der_size(()).unwrap_err(), Error::Protocol);
}

#[test]
fn file_not_found_is_a_card_rejection() {
    let (mock, _state) = ScriptCard::new(vec![], vec![], vec![]);
    let card = Card::new(Box::new(mock));
    assert_eq!(
        card.select_ef((), vec![0x00, 0x0F]).unwrap_err(),
        Error::CardRejected(0x6A, 0x82)
    );
}
