//! Building APDU commands and encoding them into their wire layout.

use vstd::prelude::*;

verus! {

/// Default CLA (class) value of commands.
pub const CLA_DEFAULT: u8 = 0x00;

/// INS (instruction) value of `SELECT FILE`.
pub const INS_SELECT_FILE: u8 = 0xA4;

/// INS (instruction) value of `READ BINARY`.
pub const INS_READ_BINARY: u8 = 0xB0;

/// INS (instruction) value of `VERIFY`.
pub const INS_VERIFY: u8 = 0x20;

/// An APDU command to be transmitted.
pub struct Command {
    pub cla: u8,
    pub ins: u8,
    pub p1: u8,
    pub p2: u8,
    pub le: Option<u8>,
    pub payload: Option<Vec<u8>>,
}

impl Command {
    /// A command is well formed when its payload, if any, fits the
    /// single-byte Lc field of the wire layout.
    pub open spec fn wf(&self) -> bool {
        self.payload is Some ==> self.payload->Some_0@.len() <= 255
    }

    /// The wire layout: `CLA INS P1 P2 (Lc payload)? (Le)?`. The Lc/payload
    /// group is omitted entirely when there is no payload, and Le is omitted
    /// when no response data is expected.
    pub open spec fn spec_bytes(&self) -> Seq<u8> {
        let head = seq![self.cla, self.ins, self.p1, self.p2];
        let with_payload = if self.payload is Some {
            head + seq![self.payload->Some_0@.len() as u8] + self.payload->Some_0@
        } else {
            head
        };
        if self.le is Some {
            with_payload.push(self.le->Some_0)
        } else {
            with_payload
        }
    }

    /// Constructs a command with CLA, INS, P1, and P2.
    /// No payloads will be transmitted or received.
    pub fn new(cla: u8, ins: u8, p1: u8, p2: u8) -> (c: Command)
        ensures
            c.cla == cla && c.ins == ins && c.p1 == p1 && c.p2 == p2,
            c.le is None,
            c.payload is None,
            c.wf(),
    {
        Command { cla, ins, p1, p2, le: None, payload: None }
    }

    /// Constructs a command with CLA, INS, P1, P2, and Le.
    /// A payload will be received.
    pub fn new_with_le(cla: u8, ins: u8, p1: u8, p2: u8, le: u8) -> (c: Command)
        ensures
            c.cla == cla && c.ins == ins && c.p1 == p1 && c.p2 == p2,
            c.le == Some(le),
            c.payload is None,
            c.wf(),
    {
        Command { cla, ins, p1, p2, le: Some(le), payload: None }
    }

    /// Constructs a command with CLA, INS, P1, P2, and a payload.
    /// No payload will be received.
    pub fn new_with_payload(cla: u8, ins: u8, p1: u8, p2: u8, payload: Vec<u8>) -> (c: Command)
        requires
            payload@.len() <= 255,
        ensures
            c.cla == cla && c.ins == ins && c.p1 == p1 && c.p2 == p2,
            c.le is None,
            c.payload is Some && c.payload->Some_0@ == payload@,
            c.wf(),
    {
        Command { cla, ins, p1, p2, le: None, payload: Some(payload) }
    }

    /// Constructs a command with CLA, INS, P1, P2, Le, and a payload.
    /// A payload will be received.
    pub fn new_with_payload_le(cla: u8, ins: u8, p1: u8, p2: u8, le: u8, payload: Vec<u8>) -> (c:
        Command)
        requires
            payload@.len() <= 255,
        ensures
            c.cla == cla && c.ins == ins && c.p1 == p1 && c.p2 == p2,
            c.le == Some(le),
            c.payload is Some && c.payload->Some_0@ == payload@,
            c.wf(),
    {
        Command { cla, ins, p1, p2, le: Some(le), payload: Some(payload) }
    }

    /// Constructs a `SELECT FILE` command.
    pub fn select_file(p1: u8, p2: u8, payload: Vec<u8>) -> (c: Command)
        requires
            payload@.len() <= 255,
        ensures
            c.cla == CLA_DEFAULT && c.ins == INS_SELECT_FILE && c.p1 == p1 && c.p2 == p2,
            c.le is None,
            payload@.len() == 0 ==> c.payload is None,
            payload@.len() > 0 ==> c.payload is Some && c.payload->Some_0@ == payload@,
            c.wf(),
    {
        if payload.len() == 0 {
            Self::new(CLA_DEFAULT, INS_SELECT_FILE, p1, p2)
        } else {
            Self::new_with_payload(CLA_DEFAULT, INS_SELECT_FILE, p1, p2, payload)
        }
    }

    /// Constructs a `READ BINARY` command.
    pub fn read_binary(p1: u8, p2: u8, le: u8) -> (c: Command)
        ensures
            c.cla == CLA_DEFAULT && c.ins == INS_READ_BINARY && c.p1 == p1 && c.p2 == p2,
            c.le == Some(le),
            c.payload is None,
            c.wf(),
    {
        Self::new_with_le(CLA_DEFAULT, INS_READ_BINARY, p1, p2, le)
    }

    /// Constructs a `VERIFY` command. An empty payload queries the PIN status
    /// without authenticating.
    pub fn verify(p2: u8, payload: Vec<u8>) -> (c: Command)
        requires
            payload@.len() <= 255,
        ensures
            c.cla == CLA_DEFAULT && c.ins == INS_VERIFY && c.p1 == 0x00 && c.p2 == p2,
            c.le is None,
            payload@.len() == 0 ==> c.payload is None,
            payload@.len() > 0 ==> c.payload is Some && c.payload->Some_0@ == payload@,
            c.wf(),
    {
        if payload.len() == 0 {
            Self::new(CLA_DEFAULT, INS_VERIFY, 0x00, p2)
        } else {
            Self::new_with_payload(CLA_DEFAULT, INS_VERIFY, 0x00, p2, payload)
        }
    }

    /// Converts the command into octets.
    pub fn into_bytes(self) -> (r: Vec<u8>)
        requires
            self.wf(),
        ensures
            r@ == self.spec_bytes(),
    {
        let ghost orig = self;
        let Command { cla, ins, p1, p2, le, payload } = self;
        let mut buffer: Vec<u8> = vec![cla, ins, p1, p2];
        assert(buffer@ =~= seq![orig.cla, orig.ins, orig.p1, orig.p2]);
        if let Some(mut p) = payload {
            let ghost p0 = p@;
            buffer.push(p.len() as u8);
            buffer.append(&mut p);
            assert(buffer@ =~= seq![orig.cla, orig.ins, orig.p1, orig.p2] + seq![
                p0.len() as u8,
            ] + p0);
        }
        if let Some(l) = le {
            buffer.push(l);
        }
        assert(buffer@ =~= orig.spec_bytes());
        buffer
    }
}

} // verus!
