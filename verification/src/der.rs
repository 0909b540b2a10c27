//! DER / ASN.1 support: a stateful, minimal reader sufficient for the
//! record formats this card emits (up to a two-octet tag and a four-octet
//! length form).

use vstd::prelude::*;
use vstd::slice::{slice_subrange, slice_to_vec};

verus! {

/// How many octets the tag at the start of `s` occupies: two when the low
/// five bits of the first octet are all ones, one otherwise.
pub open spec fn der_tag_size(s: Seq<u8>) -> int {
    if s[0] & 0x1f == 0x1f {
        2
    } else {
        1
    }
}

/// How many octets follow the first length octet: zero for the short form
/// (high bit clear), the low seven bits of the first length octet otherwise.
pub open spec fn der_len_count(s: Seq<u8>) -> int {
    if s[der_tag_size(s)] & 0x80 == 0 {
        0
    } else {
        (s[der_tag_size(s)] & 0x7f) as int
    }
}

/// The size of the whole header: tag octets plus the first length octet plus
/// the following length octets.
pub open spec fn der_header_size(s: Seq<u8>) -> int {
    der_tag_size(s) + 1 + der_len_count(s)
}

/// `s` starts with a complete header whose length form this engine supports:
/// all tag and length octets are present and the length value occupies at
/// most four octets.
pub open spec fn der_header_ok(s: Seq<u8>) -> bool {
    &&& s.len() >= der_tag_size(s) + 1
    &&& der_len_count(s) <= 4
    &&& s.len() >= der_header_size(s)
}

/// The value of `s` read as a big-endian unsigned integer.
pub open spec fn be_value(s: Seq<u8>) -> nat
    decreases s.len(),
{
    if s.len() == 0 {
        0
    } else {
        be_value(s.drop_last()) * 256 + s.last() as nat
    }
}

/// The content length the header at the start of `s` declares: the first
/// length octet itself in the short form, the big-endian value of the
/// following octets otherwise.
pub open spec fn der_value_len(s: Seq<u8>) -> nat {
    if s[der_tag_size(s)] & 0x80 == 0 {
        s[der_tag_size(s)] as nat
    } else {
        be_value(s.subrange(der_tag_size(s) + 1, der_tag_size(s) + 1 + der_len_count(s)))
    }
}

/// The size of the entire encoded object: header plus content.
pub open spec fn der_size(s: Seq<u8>) -> int {
    der_header_size(s) + der_value_len(s)
}

/// `s` starts with a complete TLV: a supported header and all content octets.
pub open spec fn der_tlv_ok(s: Seq<u8>) -> bool {
    der_header_ok(s) && s.len() >= der_size(s)
}

/// The content octets of the TLV at the start of `s`.
pub open spec fn der_value(s: Seq<u8>) -> Seq<u8> {
    s.subrange(der_header_size(s), der_size(s))
}

/// 256 to the `k`th power; the largest value `k` length octets can encode is
/// one less.
spec fn pow256(k: int) -> int
    decreases k,
{
    if k <= 0 {
        1
    } else {
        256 * pow256(k - 1)
    }
}

proof fn lemma_pow256_values()
    ensures
        pow256(0) == 1,
        pow256(1) == 256,
        pow256(2) == 0x1_0000,
        pow256(3) == 0x100_0000,
        pow256(4) == 0x1_0000_0000,
{
    assert(pow256(0) == 1);
    assert(pow256(1) == 256);
    assert(pow256(2) == 0x1_0000);
    assert(pow256(3) == 0x100_0000);
    assert(pow256(4) == 0x1_0000_0000);
}

/// The name of what `String::from_utf8_lossy` returns for the given bytes.
pub uninterp spec fn utf8_lossy_of(bytes: Seq<u8>) -> Seq<char>;

/// Relies on `String::from_utf8_lossy`: the result depends on the bytes
/// alone, and bytes that are valid UTF-8 decode to themselves, so ASCII
/// bytes map one-for-one to the characters with the same code.
#[verifier::external_body]
pub(crate) fn utf8_lossy(bytes: &[u8]) -> (r: String)
    ensures
        r@ == utf8_lossy_of(bytes@),
        (forall|i: int| 0 <= i < bytes@.len() ==> bytes@[i] < 0x80) ==> r@ == bytes@.map_values(
            |b: u8| b as char,
        ),
{
    String::from_utf8_lossy(bytes).into_owned()
}

/// Stateful, simple and customised DER / ASN.1 reader for this card's
/// records. All operations advance the cursor except `peek`.
pub struct Reader<'a> {
    pub buffer: &'a [u8],
    pub cursor: usize,
}

impl<'a> Reader<'a> {
    /// The cursor never leaves the buffer.
    pub open spec fn wf(&self) -> bool {
        self.cursor <= self.buffer@.len()
    }

    /// The bytes still ahead of the cursor.
    pub open spec fn rest(&self) -> Seq<u8> {
        self.buffer@.skip(self.cursor as int)
    }

    /// Creates a new reader from the buffer.
    pub fn new(buffer: &'a [u8]) -> (r: Reader<'a>)
        ensures
            r.buffer@ == buffer@,
            r.cursor == 0,
            r.wf(),
            r.rest() == buffer@,
    {
        let r = Reader { buffer, cursor: 0 };
        proof {
            assert(r.rest() =~= buffer@);
        }
        r
    }

    /// Reads data of specified size without seeking the cursor.
    pub fn peek(&self, length: usize) -> (r: &'a [u8])
        requires
            self.cursor + length <= self.buffer@.len(),
        ensures
            r@ == self.buffer@.subrange(self.cursor as int, self.cursor + length),
    {
        // Naming the executable length teaches the solver that the buffer,
        // and so the sum below, fits in usize.
        let _len = self.buffer.len();
        slice_subrange(self.buffer, self.cursor, self.cursor + length)
    }

    /// Seeks the cursor without reading data.
    pub fn seek(&mut self, length: usize)
        requires
            old(self).cursor + length <= old(self).buffer@.len(),
        ensures
            final(self).buffer@ == old(self).buffer@,
            final(self).cursor == old(self).cursor + length,
            final(self).wf(),
    {
        // Naming the executable length teaches the solver that the buffer,
        // and so the new cursor, fits in usize.
        let _len = self.buffer.len();
        self.cursor = self.cursor + length;
    }

    /// Reads a next octet and seeks the cursor.
    pub fn next(&mut self) -> (r: u8)
        requires
            old(self).cursor < old(self).buffer@.len(),
        ensures
            final(self).buffer@ == old(self).buffer@,
            final(self).cursor == old(self).cursor + 1,
            final(self).wf(),
            r == old(self).buffer@[old(self).cursor as int],
    {
        let byte = self.buffer[self.cursor];
        self.seek(1);
        byte
    }

    /// Reads data of specified size and seeks the cursor.
    /// Short version of `self.peek` + `self.seek`.
    pub fn read(&mut self, length: usize) -> (r: &'a [u8])
        requires
            old(self).cursor + length <= old(self).buffer@.len(),
        ensures
            final(self).buffer@ == old(self).buffer@,
            final(self).cursor == old(self).cursor + length,
            final(self).wf(),
            r@ == old(self).buffer@.subrange(old(self).cursor as int, old(self).cursor + length),
    {
        let bytes = self.peek(length);
        self.seek(length);
        bytes
    }

    /// Reads the length of the object at the current position, consuming the
    /// tag and length octets.
    pub fn read_length(&mut self) -> (r: usize)
        requires
            old(self).wf(),
            der_header_ok(old(self).rest()),
        ensures
            final(self).buffer@ == old(self).buffer@,
            final(self).cursor == old(self).cursor + der_header_size(old(self).rest()),
            final(self).wf(),
            r as nat == der_value_len(old(self).rest()),
            r <= 0xFFFF_FFFF,
    {
        let ghost s = old(self).rest();
        proof {
            assert(s.len() == old(self).buffer@.len() - old(self).cursor);
            assert(forall|j: int|
                0 <= j < s.len() ==> s[j] == old(self).buffer@[old(self).cursor + j]);
        }
        if self.next() & 0x1f == 0x1f {
            let _ = self.next();
        }
        assert(self.cursor == old(self).cursor + der_tag_size(s));
        let head = self.next();
        assert(head == s[der_tag_size(s)]);
        if head & 0x80 == 0 {
            head as usize
        } else {
            let count: usize = (head & 0x7f) as usize;
            let ghost base = old(self).cursor + der_tag_size(s) + 1;
            let mut size: u32 = 0;
            let mut k: usize = 0;
            proof {
                assert(s.subrange(der_tag_size(s) + 1, der_tag_size(s) + 1) =~= Seq::<
                    u8,
                >::empty());
            }
            while k < count
                invariant
                    k <= count,
                    count == der_len_count(s),
                    count <= 4,
                    der_header_ok(s),
                    old(self).cursor <= old(self).buffer@.len(),
                    s == old(self).buffer@.skip(old(self).cursor as int),
                    s.len() == old(self).buffer@.len() - old(self).cursor,
                    base == old(self).cursor + der_tag_size(s) + 1,
                    self.buffer@ == old(self).buffer@,
                    self.cursor == base + k,
                    size as nat == be_value(
                        s.subrange(der_tag_size(s) + 1, der_tag_size(s) + 1 + k),
                    ),
                    size as int <= pow256(k as int) - 1,
                decreases count - k,
            {
                proof {
                    lemma_pow256_values();
                    assert(forall|j: int|
                        0 <= j < s.len() ==> s[j] == old(self).buffer@[old(self).cursor + j]);
                }
                let b = self.next();
                proof {
                    let pre = s.subrange(der_tag_size(s) + 1, der_tag_size(s) + 1 + k);
                    let ext = s.subrange(der_tag_size(s) + 1, der_tag_size(s) + 1 + (k + 1));
                    assert(ext.drop_last() =~= pre);
                    assert(ext.last() == s[der_tag_size(s) + 1 + k]);
                    assert(b == s[der_tag_size(s) + 1 + k]);
                }
                size = size * 256 + b as u32;
                k = k + 1;
            }
            proof {
                assert(s.subrange(der_tag_size(s) + 1, der_tag_size(s) + 1 + count as int) =~= s
                    .subrange(der_tag_size(s) + 1, der_tag_size(s) + 1 + der_len_count(s)));
                lemma_pow256_values();
            }
            size as usize
        }
    }

    /// Reads the object at the current position automatically: its length,
    /// then exactly that many content octets.
    pub fn read_auto(&mut self) -> (r: &'a [u8])
        requires
            old(self).wf(),
            der_tlv_ok(old(self).rest()),
        ensures
            final(self).buffer@ == old(self).buffer@,
            final(self).cursor == old(self).cursor + der_size(old(self).rest()),
            final(self).wf(),
            r@ == der_value(old(self).rest()),
    {
        let ghost s = old(self).rest();
        proof {
            assert(s.len() == old(self).buffer@.len() - old(self).cursor);
        }
        let length = self.read_length();
        let r = self.read(length);
        proof {
            assert(forall|j: int|
                0 <= j < s.len() ==> s[j] == old(self).buffer@[old(self).cursor + j]);
            assert(r@ =~= der_value(s));
        }
        r
    }

    /// Reads the object at the current position as a string, decoding its
    /// content octets as UTF-8 with lossy replacement.
    pub fn read_string(&mut self) -> (r: String)
        requires
            old(self).wf(),
            der_tlv_ok(old(self).rest()),
        ensures
            final(self).buffer@ == old(self).buffer@,
            final(self).cursor == old(self).cursor + der_size(old(self).rest()),
            final(self).wf(),
            r@ == utf8_lossy_of(der_value(old(self).rest())),
    {
        let bytes = self.read_auto();
        utf8_lossy(bytes)
    }

    /// Enters the sequence at the current position: consumes its TLV and
    /// returns a fresh reader scoped to its content octets.
    pub fn in_sequence(&mut self) -> (r: Reader<'a>)
        requires
            old(self).wf(),
            der_tlv_ok(old(self).rest()),
        ensures
            final(self).buffer@ == old(self).buffer@,
            final(self).cursor == old(self).cursor + der_size(old(self).rest()),
            final(self).wf(),
            r.buffer@ == der_value(old(self).rest()),
            r.cursor == 0,
            r.wf(),
            r.rest() == der_value(old(self).rest()),
    {
        let value = self.read_auto();
        Reader::new(value)
    }

    /// Decides whether a complete, supported header starts at the cursor.
    pub fn has_header(&self) -> (r: bool)
        requires
            self.wf(),
        ensures
            r == der_header_ok(self.rest()),
    {
        let ghost s = self.rest();
        proof {
            assert(s.len() == self.buffer@.len() - self.cursor);
            assert(forall|j: int| 0 <= j < s.len() ==> s[j] == self.buffer@[self.cursor + j]);
        }
        let n = self.buffer.len();
        if n - self.cursor < 2 {
            return false;
        }
        let first = self.buffer[self.cursor];
        let t: usize = if first & 0x1f == 0x1f {
            2
        } else {
            1
        };
        assert(t == der_tag_size(s));
        if n - self.cursor < t + 1 {
            return false;
        }
        let head = self.buffer[self.cursor + t];
        assert(head == s[der_tag_size(s)]);
        if head & 0x80 == 0 {
            true
        } else {
            let count: usize = (head & 0x7f) as usize;
            count <= 4 && n - self.cursor >= t + 1 + count
        }
    }

    /// Decides whether a complete TLV (header and content) starts at the
    /// cursor.
    pub fn has_tlv(&self) -> (r: bool)
        requires
            self.wf(),
        ensures
            r == der_tlv_ok(self.rest()),
    {
        if !self.has_header() {
            return false;
        }
        let mut probe = Reader { buffer: self.buffer, cursor: self.cursor };
        let length = probe.read_length();
        let n = self.buffer.len();
        proof {
            assert(self.rest().len() == self.buffer@.len() - self.cursor);
        }
        (n - probe.cursor) as u64 >= length as u64
    }
}

/// `s` starts with at least `n` consecutive complete TLVs.
pub open spec fn der_tlv_seq_ok(s: Seq<u8>, n: nat) -> bool
    decreases n,
{
    n == 0 || (der_tlv_ok(s) && der_tlv_seq_ok(s.skip(der_size(s)), (n - 1) as nat))
}

/// The content octets of the `n`th consecutive TLV at the start of `s`,
/// counting from zero.
pub open spec fn der_nth_value(s: Seq<u8>, n: nat) -> Seq<u8>
    decreases n,
{
    if n == 0 {
        der_value(s)
    } else {
        der_nth_value(s.skip(der_size(s)), (n - 1) as nat)
    }
}

/// Reads the first `n` consecutive TLVs of the buffer and returns their
/// content octets, or nothing when fewer than `n` complete TLVs are there.
pub fn read_tlvs(buf: &[u8], n: usize) -> (r: Option<Vec<Vec<u8>>>)
    ensures
        r is Some <==> der_tlv_seq_ok(buf@, n as nat),
        r matches Some(vs) ==> vs@.len() == n && (forall|j: int|
            0 <= j < n ==> #[trigger] vs@[j]@ == der_nth_value(buf@, j as nat)),
{
    let mut reader = Reader::new(buf);
    let mut values: Vec<Vec<u8>> = Vec::new();
    let mut k: usize = 0;
    while k < n
        invariant_except_break
            k <= n,
            reader.wf(),
            reader.buffer@ == buf@,
            values@.len() == k,
            der_tlv_seq_ok(buf@, n as nat) <==> der_tlv_seq_ok(reader.rest(), (n - k) as nat),
            forall|j: int| 0 <= j < k ==> #[trigger] values@[j]@ == der_nth_value(buf@, j as nat),
            forall|j: int|
                k <= j < n ==> #[trigger] der_nth_value(buf@, j as nat) == der_nth_value(
                    reader.rest(),
                    (j - k) as nat,
                ),
        ensures
            (k == n && values@.len() == n && der_tlv_seq_ok(buf@, n as nat) && (forall|j: int|
                0 <= j < n ==> #[trigger] values@[j]@ == der_nth_value(buf@, j as nat))) || (k < n
                && !der_tlv_seq_ok(buf@, n as nat)),
        decreases n - k,
    {
        let ghost rest0 = reader.rest();
        if !reader.has_tlv() {
            proof {
                assert(der_tlv_seq_ok(rest0, (n - k) as nat) == (der_tlv_ok(rest0)
                    && der_tlv_seq_ok(rest0.skip(der_size(rest0)), (n - k - 1) as nat)));
            }
            break ;
        }
        let value = reader.read_auto();
        values.push(slice_to_vec(value));
        k = k + 1;
        proof {
            assert(reader.rest() =~= rest0.skip(der_size(rest0)));
            assert(der_tlv_seq_ok(rest0, (n - k + 1) as nat) == (der_tlv_ok(rest0)
                && der_tlv_seq_ok(rest0.skip(der_size(rest0)), (n - k) as nat)));
            assert(der_nth_value(rest0, 0) == der_value(rest0));
            assert forall|j: int| k <= j < n implies #[trigger] der_nth_value(buf@, j as nat)
                == der_nth_value(reader.rest(), (j - k) as nat) by {
                assert(der_nth_value(rest0, (j - k + 1) as nat) == der_nth_value(
                    rest0.skip(der_size(rest0)),
                    (j - k) as nat,
                ));
            }
        }
    }
    if k < n {
        None
    } else {
        Some(values)
    }
}

/// Calculates the entire size of an object (header plus content) from a
/// partial buffer that holds at least its tag and length octets.
pub fn entire_size_from_partial(header: &[u8]) -> (r: usize)
    requires
        der_header_ok(header@),
        der_size(header@) <= usize::MAX,
    ensures
        r == der_size(header@),
{
    let mut reader = Reader::new(header);
    let length = reader.read_length();
    length + reader.cursor
}

} // verus!
