use vstd::prelude::*;
use vstd::utf8::{valid_utf8, decode_utf8, encode_utf8};

verus! {

// ---------------------------------------------------------------------------
// Wire format of the primitive fields: fixed-width big-endian integers, a
// boolean as one byte, and a length-prefixed text field (16-bit big-endian
// byte length followed by the raw UTF-8 bytes).
// ---------------------------------------------------------------------------

/// The two big-endian bytes of a 16-bit integer.
pub open spec fn u16_be(v: u16) -> Seq<u8> {
    seq![(v as int / 0x100) as u8, (v as int % 0x100) as u8]
}

/// The four big-endian bytes of a 32-bit integer.
pub open spec fn u32_be(v: u32) -> Seq<u8> {
    seq![
        (v as int / 0x1000000) as u8,
        ((v as int / 0x10000) % 0x100) as u8,
        ((v as int / 0x100) % 0x100) as u8,
        (v as int % 0x100) as u8,
    ]
}

/// The eight big-endian bytes of a 64-bit integer.
pub open spec fn u64_be(v: u64) -> Seq<u8> {
    u32_be((v as int / 0x100000000) as u32) + u32_be((v as int % 0x100000000) as u32)
}

/// The 16-bit integer read back from two big-endian bytes.
pub open spec fn be16(b0: u8, b1: u8) -> u16 {
    (b0 as int * 0x100 + b1 as int) as u16
}

/// The 32-bit integer read back from four big-endian bytes.
pub open spec fn be32(b0: u8, b1: u8, b2: u8, b3: u8) -> u32 {
    (b0 as int * 0x1000000 + b1 as int * 0x10000 + b2 as int * 0x100 + b3 as int) as u32
}

/// The 64-bit integer read back from eight big-endian bytes.
pub open spec fn be64(b0: u8, b1: u8, b2: u8, b3: u8, b4: u8, b5: u8, b6: u8, b7: u8) -> u64 {
    (be32(b0, b1, b2, b3) as int * 0x100000000 + be32(b4, b5, b6, b7) as int) as u64
}

/// The single wire byte of a boolean.
pub open spec fn bool_byte(b: bool) -> u8 {
    if b { 1 } else { 0 }
}

/// The wire form of a text field: a 16-bit big-endian byte length followed by
/// the UTF-8 bytes. A byte length that does not fit 16 bits is truncated to
/// its low 16 bits, exactly as the writer below emits it.
pub open spec fn str_encoding(s: Seq<char>) -> Seq<u8> {
    u16_be((encode_utf8(s).len() % 0x10000) as u16) + encode_utf8(s)
}

/// The characters a text field yields from its raw bytes: the decoded UTF-8
/// characters, or the empty string where the bytes are not valid UTF-8.
pub open spec fn str_field_chars(bs: Seq<u8>) -> Seq<char> {
    if valid_utf8(bs) { decode_utf8(bs) } else { Seq::<char>::empty() }
}

/// Reading two big-endian bytes undoes writing them.
pub proof fn lemma_be16_round_trip(v: u16)
    ensures
        be16(u16_be(v)[0], u16_be(v)[1]) == v,
{
    assert((v / 0x100) * 0x100 + v % 0x100 == v) by (bit_vector);
}

/// Reading four big-endian bytes undoes writing them.
pub proof fn lemma_be32_round_trip(v: u32)
    ensures
        be32(u32_be(v)[0], u32_be(v)[1], u32_be(v)[2], u32_be(v)[3]) == v,
{
    assert((v / 0x1000000) * 0x1000000 + ((v / 0x10000) % 0x100) * 0x10000 + ((v / 0x100)
        % 0x100) * 0x100 + v % 0x100 == v) by (bit_vector);
}

/// Reading eight big-endian bytes undoes writing them.
pub proof fn lemma_be64_round_trip(v: u64)
    ensures
        be64(
            u64_be(v)[0],
            u64_be(v)[1],
            u64_be(v)[2],
            u64_be(v)[3],
            u64_be(v)[4],
            u64_be(v)[5],
            u64_be(v)[6],
            u64_be(v)[7],
        ) == v,
{
    let hi = (v as int / 0x100000000) as u32;
    let lo = (v as int % 0x100000000) as u32;
    assert(v / 0x100000000 < 0x100000000) by (bit_vector);
    lemma_be32_round_trip(hi);
    lemma_be32_round_trip(lo);
    assert((v / 0x100000000) * 0x100000000 + v % 0x100000000 == v) by (bit_vector);
}

// ---------------------------------------------------------------------------
// Writer: an append-only, growable byte buffer.
// ---------------------------------------------------------------------------

/// A buffer to which wire data is appended.
pub struct Writer(pub Vec<u8>);

impl View for Writer {
    type V = Seq<u8>;

    open spec fn view(&self) -> Seq<u8> {
        self.0@
    }
}

impl Writer {
    /// A fresh, empty buffer.
    pub fn new() -> (w: Writer)
        ensures
            w@ == Seq::<u8>::empty(),
    {
        Writer(Vec::new())
    }

    /// Appends the eight big-endian bytes of a 64-bit integer.
    pub fn u64(&mut self, i: u64)
        ensures
            final(self)@ == old(self)@ + u64_be(i),
    {
        let b0 = (0xff & (i >> 56)) as u8;
        let b1 = (0xff & (i >> 48)) as u8;
        let b2 = (0xff & (i >> 40)) as u8;
        let b3 = (0xff & (i >> 32)) as u8;
        let b4 = (0xff & (i >> 24)) as u8;
        let b5 = (0xff & (i >> 16)) as u8;
        let b6 = (0xff & (i >> 8)) as u8;
        let b7 = (0xff & i) as u8;
        proof {
            assert(0xff & (i >> 56) == i / 0x100000000000000 && 0xff & (i >> 48) == (i
                / 0x1000000000000) % 0x100 && 0xff & (i >> 40) == (i / 0x10000000000) % 0x100
                && 0xff & (i >> 32) == (i / 0x100000000) % 0x100 && 0xff & (i >> 24) == (i
                / 0x1000000) % 0x100 && 0xff & (i >> 16) == (i / 0x10000) % 0x100 && 0xff & (i
                >> 8) == (i / 0x100) % 0x100 && 0xff & i == i % 0x100) by (bit_vector);
            assert((i / 0x100000000) / 0x1000000 == i / 0x100000000000000 && ((i / 0x100000000)
                / 0x10000) % 0x100 == (i / 0x1000000000000) % 0x100 && ((i / 0x100000000) / 0x100)
                % 0x100 == (i / 0x10000000000) % 0x100 && (i / 0x100000000) % 0x100 == (i
                / 0x100000000) % 0x100 && (i % 0x100000000) / 0x1000000 == (i / 0x1000000) % 0x100
                && ((i % 0x100000000) / 0x10000) % 0x100 == (i / 0x10000) % 0x100 && ((i
                % 0x100000000) / 0x100) % 0x100 == (i / 0x100) % 0x100 && (i % 0x100000000) % 0x100
                == i % 0x100) by (bit_vector);
        }
        self.0.push(b0);
        self.0.push(b1);
        self.0.push(b2);
        self.0.push(b3);
        self.0.push(b4);
        self.0.push(b5);
        self.0.push(b6);
        self.0.push(b7);
        proof {
            assert(self@ =~= old(self)@ + u64_be(i));
        }
    }

    /// Appends the eight big-endian bytes of a signed 64-bit integer, as the
    /// bytes of its two's-complement bit pattern.
    pub fn i64(&mut self, i: i64)
        ensures
            final(self)@ == old(self)@ + u64_be(i as u64),
    {
        self.u64(i as u64);
    }

    /// Appends the four big-endian bytes of a 32-bit integer.
    pub fn u32(&mut self, i: u32)
        ensures
            final(self)@ == old(self)@ + u32_be(i),
    {
        let b0 = (0xff & (i >> 24)) as u8;
        let b1 = (0xff & (i >> 16)) as u8;
        let b2 = (0xff & (i >> 8)) as u8;
        let b3 = (0xff & i) as u8;
        proof {
            assert(0xff & (i >> 24) == i / 0x1000000 && 0xff & (i >> 16) == (i / 0x10000) % 0x100
                && 0xff & (i >> 8) == (i / 0x100) % 0x100 && 0xff & i == i % 0x100) by (bit_vector);
        }
        self.0.push(b0);
        self.0.push(b1);
        self.0.push(b2);
        self.0.push(b3);
        proof {
            assert(self@ =~= old(self)@ + u32_be(i));
        }
    }

    /// Appends the four big-endian bytes of a signed 32-bit integer, as the
    /// bytes of its two's-complement bit pattern.
    pub fn i32(&mut self, i: i32)
        ensures
            final(self)@ == old(self)@ + u32_be(i as u32),
    {
        self.u32(i as u32);
    }

    /// Appends the two big-endian bytes of a signed 16-bit integer, as the
    /// bytes of its two's-complement bit pattern.
    pub fn i16(&mut self, i: i16)
        ensures
            final(self)@ == old(self)@ + u16_be(i as u16),
    {
        self.u16(i as u16);
    }

    /// Appends the two big-endian bytes of a 16-bit integer.
    pub fn u16(&mut self, i: u16)
        ensures
            final(self)@ == old(self)@ + u16_be(i),
    {
        let b0 = (0xff & (i >> 8)) as u8;
        let b1 = (0xff & i) as u8;
        proof {
            assert(0xff & (i >> 8) == i / 0x100 && 0xff & i == i % 0x100) by (bit_vector);
        }
        self.0.push(b0);
        self.0.push(b1);
        proof {
            assert(self@ =~= old(self)@ + u16_be(i));
        }
    }

    /// Appends one byte.
    pub fn u8(&mut self, b: u8)
        ensures
            final(self)@ == old(self)@.push(b),
    {
        self.0.push(b);
    }

    /// Appends a boolean as one byte, 1 for true and 0 for false.
    pub fn bool(&mut self, b: bool)
        ensures
            final(self)@ == old(self)@.push(bool_byte(b)),
    {
        self.u8(if b { 1 } else { 0 });
    }

    /// Appends a text field: the byte length as a 16-bit big-endian integer,
    /// then the raw UTF-8 bytes. A length that does not fit 16 bits is
    /// silently truncated to its low 16 bits.
    pub fn str(&mut self, s: &str)
        ensures
            final(self)@ == old(self)@ + str_encoding(s@),
    {
        let bs = s.as_bytes();
        let n: usize = bs.len();
        let len16 = #[verifier::truncate] (n as u16);
        proof {
            assert(n as u16 == (n % 0x10000) as u16) by (bit_vector);
            assert(len16 == (encode_utf8(s@).len() % 0x10000) as u16);
        }
        self.u16(len16);
        self.bytes(bs);
        proof {
            assert(self@ =~= old(self)@ + str_encoding(s@));
        }
    }

    /// Appends a run of raw bytes.
    pub fn bytes(&mut self, s: &[u8])
        ensures
            final(self)@ == old(self)@ + s@,
    {
        let mut i: usize = 0;
        while i < s.len()
            invariant
                i <= s@.len(),
                self@ == old(self)@ + s@.take(i as int),
            decreases s@.len() - i,
        {
            let b = s[i];
            self.0.push(b);
            i = i + 1;
            proof {
                assert(self@ =~= old(self)@ + s@.take(i as int));
            }
        }
        proof {
            assert(self@ =~= old(self)@ + s@);
        }
    }
}

// ---------------------------------------------------------------------------
// Reader: a byte slice plus a cursor. The cursor never exceeds the slice
// length; every read either advances it by the exact decoded width or fails
// without moving it.
// ---------------------------------------------------------------------------

/// A cursor over a borrowed byte slice.
pub struct Reader<'a> {
    data: &'a [u8],
    pos: usize,
}

impl<'a> Reader<'a> {
    /// The bytes the reader was opened over.
    pub closed spec fn all_bytes(&self) -> Seq<u8> {
        self.data@
    }

    /// The cursor: how many bytes have been consumed.
    pub closed spec fn cursor(&self) -> int {
        self.pos as int
    }

    /// The cursor never runs past the end of the data.
    pub open spec fn wf(&self) -> bool {
        0 <= self.cursor() <= self.all_bytes().len()
    }

    /// How many bytes are left to read.
    pub open spec fn remaining(&self) -> int {
        self.all_bytes().len() - self.cursor()
    }

    /// A reader over the given bytes, with the cursor at the start.
    pub fn new(data: &'a [u8]) -> (r: Reader<'a>)
        ensures
            r.wf(),
            r.all_bytes() == data@,
            r.cursor() == 0,
    {
        Self { data, pos: 0 }
    }

    /// Reads a 64-bit big-endian integer, or fails without moving the cursor
    /// if fewer than eight bytes remain.
    pub fn u64(&mut self) -> (r: Option<u64>)
        requires
            old(self).wf(),
        ensures
            final(self).wf(),
            final(self).all_bytes() == old(self).all_bytes(),
            old(self).remaining() >= 8 ==> {
                &&& final(self).cursor() == old(self).cursor() + 8
                &&& r == Some(
                    be64(
                        old(self).all_bytes()[old(self).cursor()],
                        old(self).all_bytes()[old(self).cursor() + 1],
                        old(self).all_bytes()[old(self).cursor() + 2],
                        old(self).all_bytes()[old(self).cursor() + 3],
                        old(self).all_bytes()[old(self).cursor() + 4],
                        old(self).all_bytes()[old(self).cursor() + 5],
                        old(self).all_bytes()[old(self).cursor() + 6],
                        old(self).all_bytes()[old(self).cursor() + 7],
                    ),
                )
            },
            old(self).remaining() < 8 ==> r is None && final(self).cursor() == old(self).cursor(),
    {
        if self.data.len() - self.pos < 8 {
            None
        } else {
            let b0 = self.data[self.pos] as u64;
            let b1 = self.data[self.pos + 1] as u64;
            let b2 = self.data[self.pos + 2] as u64;
            let b3 = self.data[self.pos + 3] as u64;
            let b4 = self.data[self.pos + 4] as u64;
            let b5 = self.data[self.pos + 5] as u64;
            let b6 = self.data[self.pos + 6] as u64;
            let b7 = self.data[self.pos + 7] as u64;
            proof {
                assert(b0 <= 0xff && b1 <= 0xff && b2 <= 0xff && b3 <= 0xff && b4 <= 0xff && b5
                    <= 0xff && b6 <= 0xff && b7 <= 0xff);
                assert((b0 << 56) == b0 * 0x100000000000000 && (b1 << 48) == b1 * 0x1000000000000
                    && (b2 << 40) == b2 * 0x10000000000 && (b3 << 32) == b3 * 0x100000000 && (b4
                    << 24) == b4 * 0x1000000 && (b5 << 16) == b5 * 0x10000 && (b6 << 8) == b6
                    * 0x100) by (bit_vector)
                    requires
                        b0 <= 0xff && b1 <= 0xff && b2 <= 0xff && b3 <= 0xff && b4 <= 0xff && b5
                            <= 0xff && b6 <= 0xff && b7 <= 0xff,
                ;
            }
            let value = (b0 << 56) + (b1 << 48) + (b2 << 40) + (b3 << 32) + (b4 << 24) + (b5 << 16)
                + (b6 << 8) + b7;
            self.pos += 8;
            Some(value)
        }
    }

    /// Reads a signed 64-bit big-endian integer: the eight bytes interpreted
    /// as a two's-complement bit pattern.
    pub fn i64(&mut self) -> (r: Option<i64>)
        requires
            old(self).wf(),
        ensures
            final(self).wf(),
            final(self).all_bytes() == old(self).all_bytes(),
            old(self).remaining() >= 8 ==> {
                &&& final(self).cursor() == old(self).cursor() + 8
                &&& r == Some(
                    be64(
                        old(self).all_bytes()[old(self).cursor()],
                        old(self).all_bytes()[old(self).cursor() + 1],
                        old(self).all_bytes()[old(self).cursor() + 2],
                        old(self).all_bytes()[old(self).cursor() + 3],
                        old(self).all_bytes()[old(self).cursor() + 4],
                        old(self).all_bytes()[old(self).cursor() + 5],
                        old(self).all_bytes()[old(self).cursor() + 6],
                        old(self).all_bytes()[old(self).cursor() + 7],
                    ) as i64,
                )
            },
            old(self).remaining() < 8 ==> r is None && final(self).cursor() == old(self).cursor(),
    {
        match self.u64() {
            Some(v) => Some(v as i64),
            None => None,
        }
    }

    /// Reads a 32-bit big-endian integer, or fails without moving the cursor
    /// if fewer than four bytes remain.
    pub fn u32(&mut self) -> (r: Option<u32>)
        requires
            old(self).wf(),
        ensures
            final(self).wf(),
            final(self).all_bytes() == old(self).all_bytes(),
            old(self).remaining() >= 4 ==> {
                &&& final(self).cursor() == old(self).cursor() + 4
                &&& r == Some(
                    be32(
                        old(self).all_bytes()[old(self).cursor()],
                        old(self).all_bytes()[old(self).cursor() + 1],
                        old(self).all_bytes()[old(self).cursor() + 2],
                        old(self).all_bytes()[old(self).cursor() + 3],
                    ),
                )
            },
            old(self).remaining() < 4 ==> r is None && final(self).cursor() == old(self).cursor(),
    {
        if self.data.len() - self.pos < 4 {
            None
        } else {
            let b0 = self.data[self.pos] as u32;
            let b1 = self.data[self.pos + 1] as u32;
            let b2 = self.data[self.pos + 2] as u32;
            let b3 = self.data[self.pos + 3] as u32;
            proof {
                assert(b0 <= 0xff && b1 <= 0xff && b2 <= 0xff && b3 <= 0xff);
                assert((b0 << 24) == b0 * 0x1000000 && (b1 << 16) == b1 * 0x10000 && (b2 << 8) == b2
                    * 0x100) by (bit_vector)
                    requires
                        b0 <= 0xff && b1 <= 0xff && b2 <= 0xff && b3 <= 0xff,
                ;
            }
            let value = (b0 << 24) + (b1 << 16) + (b2 << 8) + b3;
            self.pos += 4;
            Some(value)
        }
    }

    /// Reads a signed 32-bit big-endian integer: the four bytes interpreted
    /// as a two's-complement bit pattern.
    pub fn i32(&mut self) -> (r: Option<i32>)
        requires
            old(self).wf(),
        ensures
            final(self).wf(),
            final(self).all_bytes() == old(self).all_bytes(),
            old(self).remaining() >= 4 ==> {
                &&& final(self).cursor() == old(self).cursor() + 4
                &&& r == Some(
                    be32(
                        old(self).all_bytes()[old(self).cursor()],
                        old(self).all_bytes()[old(self).cursor() + 1],
                        old(self).all_bytes()[old(self).cursor() + 2],
                        old(self).all_bytes()[old(self).cursor() + 3],
                    ) as i32,
                )
            },
            old(self).remaining() < 4 ==> r is None && final(self).cursor() == old(self).cursor(),
    {
        match self.u32() {
            Some(v) => Some(v as i32),
            None => None,
        }
    }

    /// Reads a 16-bit big-endian integer, or fails without moving the cursor
    /// if fewer than two bytes remain.
    pub fn u16(&mut self) -> (r: Option<u16>)
        requires
            old(self).wf(),
        ensures
            final(self).wf(),
            final(self).all_bytes() == old(self).all_bytes(),
            old(self).remaining() >= 2 ==> {
                &&& final(self).cursor() == old(self).cursor() + 2
                &&& r == Some(
                    be16(
                        old(self).all_bytes()[old(self).cursor()],
                        old(self).all_bytes()[old(self).cursor() + 1],
                    ),
                )
            },
            old(self).remaining() < 2 ==> r is None && final(self).cursor() == old(self).cursor(),
    {
        if self.data.len() - self.pos < 2 {
            None
        } else {
            let b0 = self.data[self.pos] as u16;
            let b1 = self.data[self.pos + 1] as u16;
            proof {
                assert(b0 <= 0xff && b1 <= 0xff);
                assert((b0 << 8) == b0 * 0x100) by (bit_vector)
                    requires
                        b0 <= 0xff,
                ;
            }
            let value = (b0 << 8) + b1;
            self.pos += 2;
            Some(value)
        }
    }

    /// Reads a signed 16-bit big-endian integer: the two bytes interpreted
    /// as a two's-complement bit pattern.
    pub fn i16(&mut self) -> (r: Option<i16>)
        requires
            old(self).wf(),
        ensures
            final(self).wf(),
            final(self).all_bytes() == old(self).all_bytes(),
            old(self).remaining() >= 2 ==> {
                &&& final(self).cursor() == old(self).cursor() + 2
                &&& r == Some(
                    be16(
                        old(self).all_bytes()[old(self).cursor()],
                        old(self).all_bytes()[old(self).cursor() + 1],
                    ) as i16,
                )
            },
            old(self).remaining() < 2 ==> r is None && final(self).cursor() == old(self).cursor(),
    {
        match self.u16() {
            Some(v) => Some(v as i16),
            None => None,
        }
    }

    /// Reads one byte, or fails without moving the cursor if none remains.
    pub fn u8(&mut self) -> (r: Option<u8>)
        requires
            old(self).wf(),
        ensures
            final(self).wf(),
            final(self).all_bytes() == old(self).all_bytes(),
            old(self).remaining() >= 1 ==> {
                &&& final(self).cursor() == old(self).cursor() + 1
                &&& r == Some(old(self).all_bytes()[old(self).cursor()])
            },
            old(self).remaining() < 1 ==> r is None && final(self).cursor() == old(self).cursor(),
    {
        if self.data.len() == self.pos {
            None
        } else {
            let value = self.data[self.pos];
            self.pos += 1;
            Some(value)
        }
    }

    /// Looks at the next byte without consuming it; fails if none remains.
    pub fn peek_u8(&mut self) -> (r: Option<u8>)
        requires
            old(self).wf(),
        ensures
            *final(self) == *old(self),
            old(self).remaining() >= 1 ==> r == Some(
                old(self).all_bytes()[old(self).cursor()],
            ),
            old(self).remaining() < 1 ==> r is None,
    {
        if self.data.len() == self.pos {
            None
        } else {
            let value = self.data[self.pos];
            Some(value)
        }
    }

    /// Reads a signed byte: the byte interpreted as a two's-complement bit
    /// pattern.
    pub fn i8(&mut self) -> (r: Option<i8>)
        requires
            old(self).wf(),
        ensures
            final(self).wf(),
            final(self).all_bytes() == old(self).all_bytes(),
            old(self).remaining() >= 1 ==> {
                &&& final(self).cursor() == old(self).cursor() + 1
                &&& r == Some(old(self).all_bytes()[old(self).cursor()] as i8)
            },
            old(self).remaining() < 1 ==> r is None && final(self).cursor() == old(self).cursor(),
    {
        match self.u8() {
            Some(v) => Some(v as i8),
            None => None,
        }
    }

    /// Reads a boolean byte: 0 is false, anything else is true.
    pub fn bool(&mut self) -> (r: Option<bool>)
        requires
            old(self).wf(),
        ensures
            final(self).wf(),
            final(self).all_bytes() == old(self).all_bytes(),
            old(self).remaining() >= 1 ==> {
                &&& final(self).cursor() == old(self).cursor() + 1
                &&& r == Some(old(self).all_bytes()[old(self).cursor()] != 0)
            },
            old(self).remaining() < 1 ==> r is None && final(self).cursor() == old(self).cursor(),
    {
        match self.u8() {
            Some(v) => Some(if v == 0 { false } else { true }),
            None => None,
        }
    }

    /// Reads a text field: a 16-bit byte length, then that many bytes,
    /// decoded as UTF-8; bytes that are not valid UTF-8 yield the empty
    /// string. Fails without moving the cursor if the length or the bytes
    /// run past the end.
    pub fn str(&mut self) -> (r: Option<&'a str>)
        requires
            old(self).wf(),
        ensures
            final(self).wf(),
            final(self).all_bytes() == old(self).all_bytes(),
            match r {
                Some(s) => {
                    let n = be16(
                        old(self).all_bytes()[old(self).cursor()],
                        old(self).all_bytes()[old(self).cursor() + 1],
                    ) as int;
                    &&& old(self).remaining() >= 2
                    &&& old(self).remaining() - 2 >= n
                    &&& final(self).cursor() == old(self).cursor() + 2 + n
                    &&& s@ == str_field_chars(
                        old(self).all_bytes().subrange(
                            old(self).cursor() + 2,
                            old(self).cursor() + 2 + n,
                        ),
                    )
                },
                None => {
                    &&& final(self).cursor() == old(self).cursor()
                    &&& (old(self).remaining() < 2 || old(self).remaining() - 2 < be16(
                        old(self).all_bytes()[old(self).cursor()],
                        old(self).all_bytes()[old(self).cursor() + 1],
                    ) as int)
                },
            },
    {
        match self.u16() {
            None => None,
            Some(len) => {
                match self.bytes(len as usize) {
                    None => {
                        self.pos -= 2;
                        None
                    },
                    Some(bs) => Some(from_utf8_or_empty(bs)),
                }
            },
        }
    }

    /// Reads exactly `n` raw bytes, or fails without moving the cursor if
    /// fewer remain.
    pub fn bytes(&mut self, n: usize) -> (r: Option<&'a [u8]>)
        requires
            old(self).wf(),
        ensures
            final(self).wf(),
            final(self).all_bytes() == old(self).all_bytes(),
            old(self).remaining() >= n ==> {
                &&& final(self).cursor() == old(self).cursor() + n
                &&& r matches Some(s) && s@ == old(self).all_bytes().subrange(
                    old(self).cursor(),
                    old(self).cursor() + n,
                )
            },
            old(self).remaining() < n ==> r is None && final(self).cursor() == old(self).cursor(),
    {
        if self.data.len() - self.pos < n {
            return None;
        }
        let s = vstd::slice::slice_subrange(self.data, self.pos, self.pos + n);
        self.pos += n;
        Some(s)
    }

    /// Takes all remaining bytes, moving the cursor to the end.
    pub fn bytes_remaining(&mut self) -> (r: &'a [u8])
        requires
            old(self).wf(),
        ensures
            final(self).wf(),
            final(self).all_bytes() == old(self).all_bytes(),
            final(self).cursor() == final(self).all_bytes().len(),
            r@ == old(self).all_bytes().skip(old(self).cursor()),
    {
        let s = vstd::slice::slice_subrange(self.data, self.pos, self.data.len());
        self.pos = self.data.len();
        proof {
            assert(s@ =~= old(self).all_bytes().skip(old(self).cursor()));
        }
        s
    }
}

/// Relies on std::str::from_utf8: it returns the string viewing exactly the
/// given bytes when they are valid UTF-8, and fails otherwise; the text field
/// reader maps the failure to the empty string.
#[verifier::external_body]
fn from_utf8_or_empty<'a>(b: &'a [u8]) -> (r: &'a str)
    ensures
        valid_utf8(b@) ==> r@ == decode_utf8(b@),
        !valid_utf8(b@) ==> r@ == Seq::<char>::empty(),
{
    std::str::from_utf8(b).unwrap_or("")
}

} // verus!
