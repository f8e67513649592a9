//! Binary codec: a growable byte buffer with an append-only write path and a
//! monotonic read cursor. Every multi-byte value is big-endian.
//!
//! Doubles travel as their IEEE-754 bit pattern (`u64`): the codec moves the
//! eight bytes and never interprets them.
use vstd::prelude::*;
use vstd::utf8::*;
use crate::error::TraciError;

verus! {

broadcast use vstd::seq_lib::group_seq_properties;

// ---------------------------------------------------------------------------
// Wire encodings
// ---------------------------------------------------------------------------

/// The two bytes of `v`, most significant first.
pub open spec fn u16_be(v: u16) -> Seq<u8> {
    seq![(v >> 8u16) as u8, v as u8]
}

/// The four bytes of `v`, most significant first.
pub open spec fn u32_be(v: u32) -> Seq<u8> {
    seq![(v >> 24u32) as u8, (v >> 16u32) as u8, (v >> 8u32) as u8, v as u8]
}

/// The eight bytes of `v`, most significant first.
pub open spec fn u64_be(v: u64) -> Seq<u8> {
    seq![
        (v >> 56u64) as u8,
        (v >> 48u64) as u8,
        (v >> 40u64) as u8,
        (v >> 32u64) as u8,
        (v >> 24u64) as u8,
        (v >> 16u64) as u8,
        (v >> 8u64) as u8,
        v as u8,
    ]
}

/// The integer whose big-endian bytes are `b0 b1`.
pub open spec fn u16_of(b0: u8, b1: u8) -> u16 {
    ((b0 as u16) << 8u16) | (b1 as u16)
}

/// The integer whose big-endian bytes are `b0 .. b3`.
pub open spec fn u32_of(b0: u8, b1: u8, b2: u8, b3: u8) -> u32 {
    ((b0 as u32) << 24u32) | ((b1 as u32) << 16u32) | ((b2 as u32) << 8u32) | (b3 as u32)
}

/// The integer whose big-endian bytes are `b[0] .. b[7]`.
pub open spec fn u64_of(b: Seq<u8>) -> u64 {
    ((b[0] as u64) << 56u64) | ((b[1] as u64) << 48u64) | ((b[2] as u64) << 40u64) | ((
    b[3] as u64) << 32u64) | ((b[4] as u64) << 24u64) | ((b[5] as u64) << 16u64) | ((
    b[6] as u64) << 8u64) | (b[7] as u64)
}

/// Encoding of a signed 32-bit integer.
pub open spec fn enc_i32(v: i32) -> Seq<u8> {
    u32_be(v as u32)
}

/// Encoding of a double, given by its bit pattern.
pub open spec fn enc_f64(bits: u64) -> Seq<u8> {
    u64_be(bits)
}

/// Encoding of a string: its UTF-8 byte count as an `i32`, then the bytes.
pub open spec fn enc_string(s: Seq<char>) -> Seq<u8> {
    enc_i32(encode_utf8(s).len() as i32) + encode_utf8(s)
}

/// The strings of `l`, each encoded, one after the other.
pub open spec fn enc_strings(l: Seq<Seq<char>>) -> Seq<u8>
    decreases l.len(),
{
    if l.len() == 0 {
        seq![]
    } else {
        enc_strings(l.drop_last()) + enc_string(l.last())
    }
}

/// Encoding of a string list: the count as an `i32`, then each string.
pub open spec fn enc_string_list(l: Seq<Seq<char>>) -> Seq<u8> {
    enc_i32(l.len() as i32) + enc_strings(l)
}

/// The doubles of `l`, each encoded, one after the other.
pub open spec fn enc_doubles(l: Seq<u64>) -> Seq<u8>
    decreases l.len(),
{
    if l.len() == 0 {
        seq![]
    } else {
        enc_doubles(l.drop_last()) + enc_f64(l.last())
    }
}

/// Encoding of a double list: the count as an `i32`, then each double.
pub open spec fn enc_f64_list(l: Seq<u64>) -> Seq<u8> {
    enc_i32(l.len() as i32) + enc_doubles(l)
}

/// A string whose encoded byte count fits the `i32` length prefix.
pub open spec fn string_fits(s: Seq<char>) -> bool {
    encode_utf8(s).len() <= i32::MAX
}

// ---------------------------------------------------------------------------
// Wire decoding, from byte `p` of `b`: the value and the position after it
// ---------------------------------------------------------------------------

/// `n` bytes from position `p`, if that many remain.
pub open spec fn parse_bytes(b: Seq<u8>, p: int, n: int) -> Option<(Seq<u8>, int)> {
    if 0 <= p && 0 <= n && p + n <= b.len() {
        Some((b.subrange(p, p + n), p + n))
    } else {
        None
    }
}

pub open spec fn parse_u8(b: Seq<u8>, p: int) -> Option<(u8, int)> {
    if 0 <= p && p + 1 <= b.len() {
        Some((b[p], p + 1))
    } else {
        None
    }
}

pub open spec fn parse_i16(b: Seq<u8>, p: int) -> Option<(i16, int)> {
    if 0 <= p && p + 2 <= b.len() {
        Some((u16_of(b[p], b[p + 1]) as i16, p + 2))
    } else {
        None
    }
}

pub open spec fn parse_i32(b: Seq<u8>, p: int) -> Option<(i32, int)> {
    if 0 <= p && p + 4 <= b.len() {
        Some((u32_of(b[p], b[p + 1], b[p + 2], b[p + 3]) as i32, p + 4))
    } else {
        None
    }
}

pub open spec fn parse_f64(b: Seq<u8>, p: int) -> Option<(u64, int)> {
    if 0 <= p && p + 8 <= b.len() {
        Some((u64_of(b.subrange(p, p + 8)), p + 8))
    } else {
        None
    }
}

/// A string: a non-negative `i32` byte count, then that many bytes of valid UTF-8.
pub open spec fn parse_string(b: Seq<u8>, p: int) -> Option<(Seq<char>, int)> {
    match parse_i32(b, p) {
        Some((n, q)) => {
            if n >= 0 && q + n <= b.len() && valid_utf8(b.subrange(q, q + n)) {
                Some((decode_utf8(b.subrange(q, q + n)), q + n))
            } else {
                None
            }
        },
        None => None,
    }
}

/// `n` strings, one after the other.
pub open spec fn parse_strings(b: Seq<u8>, p: int, n: nat) -> Option<(Seq<Seq<char>>, int)>
    decreases n,
{
    if n == 0 {
        Some((seq![], p))
    } else {
        match parse_strings(b, p, (n - 1) as nat) {
            Some((l, q)) => match parse_string(b, q) {
                Some((s, r)) => Some((l.push(s), r)),
                None => None,
            },
            None => None,
        }
    }
}

/// A string list: an `i32` count, then that many strings (none when negative).
pub open spec fn parse_string_list(b: Seq<u8>, p: int) -> Option<(Seq<Seq<char>>, int)> {
    match parse_i32(b, p) {
        Some((n, q)) => parse_strings(b, q, if n < 0 { 0 } else { n as nat }),
        None => None,
    }
}

/// `n` doubles, one after the other.
pub open spec fn parse_doubles(b: Seq<u8>, p: int, n: nat) -> Option<(Seq<u64>, int)>
    decreases n,
{
    if n == 0 {
        Some((seq![], p))
    } else {
        match parse_doubles(b, p, (n - 1) as nat) {
            Some((l, q)) => match parse_f64(b, q) {
                Some((d, r)) => Some((l.push(d), r)),
                None => None,
            },
            None => None,
        }
    }
}

/// A double list: an `i32` count, then that many doubles (none when negative).
pub open spec fn parse_f64_list(b: Seq<u8>, p: int) -> Option<(Seq<u64>, int)> {
    match parse_i32(b, p) {
        Some((n, q)) => parse_doubles(b, q, if n < 0 { 0 } else { n as nat }),
        None => None,
    }
}

// ---------------------------------------------------------------------------
// Storage
// ---------------------------------------------------------------------------

/// A byte buffer with sequential big-endian writes and reads.
///
/// Writes append; reads advance a cursor that is independent of the writes. A
/// read that needs more bytes than remain fails with a `Protocol` error and
/// never wraps.
#[derive(Debug, Default)]
pub struct Storage {
    buf: Vec<u8>,
    pos: usize,
}

impl View for Storage {
    type V = Seq<u8>;

    /// The bytes held, regardless of the cursor.
    closed spec fn view(&self) -> Seq<u8> {
        self.buf@
    }
}

impl Storage {
    /// The read cursor.
    pub closed spec fn cursor(&self) -> int {
        self.pos as int
    }

    /// An empty buffer.
    pub fn new() -> (r: Storage)
        ensures
            r@ == Seq::<u8>::empty(),
            r.cursor() == 0,
    {
        Storage { buf: Vec::new(), pos: 0 }
    }

    /// A buffer holding `data`, cursor at the start.
    pub fn from_bytes(data: Vec<u8>) -> (r: Storage)
        ensures
            r@ == data@,
            r.cursor() == 0,
    {
        Storage { buf: data, pos: 0 }
    }

    /// Number of bytes held.
    pub fn len(&self) -> (r: usize)
        ensures
            r == self@.len(),
    {
        self.buf.len()
    }

    /// Whether no byte is held.
    pub fn is_empty(&self) -> (r: bool)
        ensures
            r == (self@.len() == 0),
    {
        self.buf.len() == 0
    }

    /// The read cursor.
    pub fn position(&self) -> (r: usize)
        ensures
            r == self.cursor(),
    {
        self.pos
    }

    /// Whether a byte remains to be read.
    pub fn valid_pos(&self) -> (r: bool)
        ensures
            r == (self.cursor() < self@.len()),
    {
        self.pos < self.buf.len()
    }

    /// All bytes held, regardless of the cursor.
    pub fn as_bytes(&self) -> (r: &[u8])
        ensures
            r@ == self@,
    {
        self.buf.as_slice()
    }

    /// Drops all bytes and puts the cursor at the start.
    pub fn reset(&mut self)
        ensures
            final(self)@ == Seq::<u8>::empty(),
            final(self).cursor() == 0,
    {
        self.buf.clear();
        self.pos = 0;
    }

    /// Puts the cursor at the start and keeps the bytes.
    pub fn reset_pos(&mut self)
        ensures
            final(self)@ == old(self)@,
            final(self).cursor() == 0,
    {
        self.pos = 0;
    }

    /// Appends the bytes of `other`.
    pub fn append_storage(&mut self, other: &Storage)
        ensures
            final(self)@ == old(self)@ + other@,
            final(self).cursor() == old(self).cursor(),
    {
        self.write_packet(other.buf.as_slice());
    }

    /// Appends `bytes` as they are.
    pub fn write_packet(&mut self, bytes: &[u8])
        ensures
            final(self)@ == old(self)@ + bytes@,
            final(self).cursor() == old(self).cursor(),
    {
        let ghost start = self.buf@;
        let mut i: usize = 0;
        while i < bytes.len()
            invariant
                i <= bytes@.len(),
                self.buf@ == start + bytes@.subrange(0, i as int),
                self.pos == old(self).pos,
                start == old(self).buf@,
            decreases bytes@.len() - i,
        {
            self.buf.push(bytes[i]);
            i = i + 1;
        }
        assert(bytes@.subrange(0, i as int) == bytes@);
    }

    /// Fails unless `n` bytes remain after the cursor.
    fn check_read(&self, n: usize) -> (r: Result<(), TraciError>)
        ensures
            r is Ok <==> (self.cursor() + n <= self@.len()),
            r matches Err(e) ==> e.is_protocol(),
    {
        if self.pos > self.buf.len() || n > self.buf.len() - self.pos {
            Err(TraciError::protocol("Storage: attempt to read past the end of the buffer"))
        } else {
            Ok(())
        }
    }

    /// Reads `n` bytes.
    fn read_raw_bytes(&mut self, n: usize) -> (r: Result<Vec<u8>, TraciError>)
        ensures
            match parse_bytes(old(self)@, old(self).cursor(), n as int) {
                Some((v, q)) => r matches Ok(x) && x@ == v && final(self).cursor() == q,
                None => r matches Err(e) && e.is_protocol() && final(self).cursor()
                    == old(self).cursor(),
            },
            final(self)@ == old(self)@,
    {
        self.check_read(n)?;
        let _len = self.buf.len();
        let mut out: Vec<u8> = Vec::new();
        let mut i: usize = 0;
        while i < n
            invariant
                i <= n,
                self.pos + n <= self.buf@.len(),
                self.buf@.len() <= usize::MAX,
                out@ == self.buf@.subrange(self.pos as int, self.pos + i),
            decreases n - i,
        {
            out.push(self.buf[self.pos + i]);
            i = i + 1;
        }
        self.pos = self.pos + n;
        Ok(out)
    }

    /// Reads one unsigned byte.
    pub fn read_u8(&mut self) -> (r: Result<u8, TraciError>)
        ensures
            match parse_u8(old(self)@, old(self).cursor()) {
                Some((v, q)) => r == Ok::<u8, TraciError>(v) && final(self).cursor() == q,
                None => r matches Err(e) && e.is_protocol() && final(self).cursor()
                    == old(self).cursor(),
            },
            final(self)@ == old(self)@,
    {
        self.check_read(1)?;
        let _len = self.buf.len();
        let v = self.buf[self.pos];
        self.pos = self.pos + 1;
        Ok(v)
    }

    /// Appends one unsigned byte.
    pub fn write_u8(&mut self, value: u8)
        ensures
            final(self)@ == old(self)@.push(value),
            final(self).cursor() == old(self).cursor(),
    {
        self.buf.push(value);
    }
    /// Reads one signed byte, returned as an `i32` in -128..=127.
    pub fn read_byte(&mut self) -> (r: Result<i32, TraciError>)
        ensures
            match parse_u8(old(self)@, old(self).cursor()) {
                Some((v, q)) => r == Ok::<i32, TraciError>(signed_byte(v)) && final(self).cursor()
                    == q,
                None => r matches Err(e) && e.is_protocol(),
            },
            final(self)@ == old(self)@,
    {
        let raw = self.read_u8()?;
        if raw < 128 {
            Ok(raw as i32)
        } else {
            Ok(raw as i32 - 256)
        }
    }

    /// Appends one signed byte; fails, writing nothing, outside -128..=127.
    pub fn write_byte(&mut self, value: i32) -> (r: Result<(), TraciError>)
        ensures
            -128 <= value <= 127 ==> (r is Ok && final(self)@ == old(self)@.push(
                byte_of_signed(value),
            )),
            !(-128 <= value <= 127) ==> (r matches Err(e) && e.is_protocol() && final(self)@
                == old(self)@),
            final(self).cursor() == old(self).cursor(),
    {
        if value < -128 || value > 127 {
            return Err(TraciError::protocol("Storage::write_byte: value out of range [-128, 127]"));
        }
        if value < 0 {
            self.write_u8((value + 256) as u8);
        } else {
            self.write_u8(value as u8);
        }
        Ok(())
    }

    /// Reads a big-endian signed 16-bit integer.
    pub fn read_i16(&mut self) -> (r: Result<i16, TraciError>)
        ensures
            match parse_i16(old(self)@, old(self).cursor()) {
                Some((v, q)) => r == Ok::<i16, TraciError>(v) && final(self).cursor() == q,
                None => r matches Err(e) && e.is_protocol(),
            },
            final(self)@ == old(self)@,
    {
        let b = self.read_raw_bytes(2)?;
        Ok((((b[0] as u16) << 8u16) | (b[1] as u16)) as i16)
    }

    /// Appends a big-endian signed 16-bit integer.
    pub fn write_i16(&mut self, value: i16)
        ensures
            final(self)@ == old(self)@ + u16_be(value as u16),
            final(self).cursor() == old(self).cursor(),
    {
        let u = value as u16;
        self.buf.push((u >> 8u16) as u8);
        self.buf.push(u as u8);
        assert(self.buf@ == old(self)@ + u16_be(value as u16));
    }

    /// Reads a big-endian signed 32-bit integer.
    pub fn read_i32(&mut self) -> (r: Result<i32, TraciError>)
        ensures
            match parse_i32(old(self)@, old(self).cursor()) {
                Some((v, q)) => r == Ok::<i32, TraciError>(v) && final(self).cursor() == q,
                None => r matches Err(e) && e.is_protocol(),
            },
            final(self)@ == old(self)@,
    {
        let b = self.read_raw_bytes(4)?;
        Ok((((b[0] as u32) << 24u32) | ((b[1] as u32) << 16u32) | ((b[2] as u32) << 8u32) | (
        b[3] as u32)) as i32)
    }

    /// Appends a big-endian signed 32-bit integer.
    pub fn write_i32(&mut self, value: i32)
        ensures
            final(self)@ == old(self)@ + enc_i32(value),
            final(self).cursor() == old(self).cursor(),
    {
        let u = value as u32;
        self.buf.push((u >> 24u32) as u8);
        self.buf.push((u >> 16u32) as u8);
        self.buf.push((u >> 8u32) as u8);
        self.buf.push(u as u8);
        assert(self.buf@ == old(self)@ + enc_i32(value));
    }

    /// Reads a big-endian double, returned as its bit pattern.
    pub fn read_f64(&mut self) -> (r: Result<u64, TraciError>)
        ensures
            match parse_f64(old(self)@, old(self).cursor()) {
                Some((v, q)) => r == Ok::<u64, TraciError>(v) && final(self).cursor() == q,
                None => r matches Err(e) && e.is_protocol(),
            },
            final(self)@ == old(self)@,
    {
        let b = self.read_raw_bytes(8)?;
        assert(b@ == old(self)@.subrange(old(self).cursor(), old(self).cursor() + 8));
        Ok(((b[0] as u64) << 56u64) | ((b[1] as u64) << 48u64) | ((b[2] as u64) << 40u64) | ((
        b[3] as u64) << 32u64) | ((b[4] as u64) << 24u64) | ((b[5] as u64) << 16u64) | ((
        b[6] as u64) << 8u64) | (b[7] as u64))
    }

    /// Appends a big-endian double, given by its bit pattern.
    pub fn write_f64(&mut self, value: u64)
        ensures
            final(self)@ == old(self)@ + enc_f64(value),
            final(self).cursor() == old(self).cursor(),
    {
        self.buf.push((value >> 56u64) as u8);
        self.buf.push((value >> 48u64) as u8);
        self.buf.push((value >> 40u64) as u8);
        self.buf.push((value >> 32u64) as u8);
        self.buf.push((value >> 24u64) as u8);
        self.buf.push((value >> 16u64) as u8);
        self.buf.push((value >> 8u64) as u8);
        self.buf.push(value as u8);
        assert(self.buf@ == old(self)@ + enc_f64(value));
    }

    /// Reads a length-prefixed UTF-8 string.
    pub fn read_string(&mut self) -> (r: Result<String, TraciError>)
        ensures
            match parse_string(old(self)@, old(self).cursor()) {
                Some((v, q)) => r matches Ok(s) && s@ == v && final(self).cursor() == q,
                None => r matches Err(e) && e.is_protocol(),
            },
            final(self)@ == old(self)@,
    {
        let n = self.read_i32()?;
        if n < 0 {
            return Err(TraciError::protocol("Storage: negative string length"));
        }
        let bytes = self.read_raw_bytes(n as usize)?;
        match string_from_utf8(bytes) {
            Some(s) => Ok(s),
            None => Err(TraciError::protocol("Invalid UTF-8 in string")),
        }
    }

    /// Appends a length-prefixed UTF-8 string.
    pub fn write_string(&mut self, s: &str)
        requires
            string_fits(s@),
        ensures
            final(self)@ == old(self)@ + enc_string(s@),
            final(self).cursor() == old(self).cursor(),
    {
        self.write_i32(s.len() as i32);
        self.write_packet(s.as_bytes());
        assert(final(self)@ == old(self)@ + enc_string(s@));
    }

    /// Reads a list of strings: an `i32` count, then each string.
    pub fn read_string_list(&mut self) -> (r: Result<Vec<String>, TraciError>)
        ensures
            match parse_string_list(old(self)@, old(self).cursor()) {
                Some((l, q)) => r matches Ok(v) && strings_view(v@) == l && final(self).cursor()
                    == q,
                None => r matches Err(e) && e.is_protocol(),
            },
            final(self)@ == old(self)@,
    {
        let count = self.read_i32()?;
        let ghost b = self@;
        let ghost p0 = self.cursor();
        let mut v: Vec<String> = Vec::new();
        let mut i: i32 = 0;
        while i < count
            invariant
                0 <= i,
                i <= (if count < 0 { 0 } else { count }),
                self@ == b,
                b == old(self)@,
                parse_i32(b, old(self).cursor()) == Some((count, p0)),
                parse_strings(b, p0, i as nat) == Some((strings_view(v@), self.cursor())),
            decreases count - i,
        {
            let ghost before = v@;
            let s = match self.read_string() {
                Ok(s) => s,
                Err(e) => {
                    proof {
                        lemma_parse_strings_none_from(b, p0, (i + 1) as nat, count as nat);
                    }
                    return Err(e);
                },
            };
            v.push(s);
            assert(strings_view(v@) == strings_view(before).push(s@));
            i = i + 1;
        }
        Ok(v)
    }

    /// Appends a list of strings: an `i32` count, then each string.
    pub fn write_string_list(&mut self, list: &[String])
        requires
            list@.len() <= i32::MAX,
            forall|i: int| 0 <= i < list@.len() ==> string_fits(#[trigger] list@[i]@),
        ensures
            final(self)@ == old(self)@ + enc_string_list(strings_view(list@)),
            final(self).cursor() == old(self).cursor(),
    {
        self.write_i32(list.len() as i32);
        let ghost head = self@;
        let mut i: usize = 0;
        while i < list.len()
            invariant
                i <= list@.len(),
                forall|j: int| 0 <= j < list@.len() ==> string_fits(#[trigger] list@[j]@),
                self@ == head + enc_strings(strings_view(list@.subrange(0, i as int))),
                self.cursor() == old(self).cursor(),
            decreases list@.len() - i,
        {
            let ghost before = self@;
            self.write_string(list[i].as_str());
            assert(strings_view(list@.subrange(0, i + 1)).drop_last() == strings_view(
                list@.subrange(0, i as int),
            ));
            i = i + 1;
        }
        assert(list@.subrange(0, i as int) == list@);
    }

    /// Reads a list of doubles (bit patterns): an `i32` count, then each double.
    pub fn read_f64_list(&mut self) -> (r: Result<Vec<u64>, TraciError>)
        ensures
            match parse_f64_list(old(self)@, old(self).cursor()) {
                Some((l, q)) => r matches Ok(v) && v@ == l && final(self).cursor() == q,
                None => r matches Err(e) && e.is_protocol(),
            },
            final(self)@ == old(self)@,
    {
        let count = self.read_i32()?;
        let ghost b = self@;
        let ghost p0 = self.cursor();
        let mut v: Vec<u64> = Vec::new();
        let mut i: i32 = 0;
        while i < count
            invariant
                0 <= i,
                i <= (if count < 0 { 0 } else { count }),
                self@ == b,
                b == old(self)@,
                parse_i32(b, old(self).cursor()) == Some((count, p0)),
                parse_doubles(b, p0, i as nat) == Some((v@, self.cursor())),
            decreases count - i,
        {
            let d = match self.read_f64() {
                Ok(d) => d,
                Err(e) => {
                    proof {
                        lemma_parse_doubles_none_from(b, p0, (i + 1) as nat, count as nat);
                    }
                    return Err(e);
                },
            };
            v.push(d);
            i = i + 1;
        }
        Ok(v)
    }

    /// Appends a list of doubles (bit patterns): an `i32` count, then each double.
    pub fn write_f64_list(&mut self, list: &[u64])
        requires
            list@.len() <= i32::MAX,
        ensures
            final(self)@ == old(self)@ + enc_f64_list(list@),
            final(self).cursor() == old(self).cursor(),
    {
        self.write_i32(list.len() as i32);
        let ghost head = self@;
        let mut i: usize = 0;
        while i < list.len()
            invariant
                i <= list@.len(),
                self@ == head + enc_doubles(list@.subrange(0, i as int)),
                self.cursor() == old(self).cursor(),
            decreases list@.len() - i,
        {
            self.write_f64(list[i]);
            assert(list@.subrange(0, i + 1).drop_last() == list@.subrange(0, i as int));
            i = i + 1;
        }
        assert(list@.subrange(0, i as int) == list@);
    }
}

/// The characters of each string of `v`.
pub open spec fn strings_view(v: Seq<String>) -> Seq<Seq<char>> {
    v.map_values(|s: String| s@)
}

/// The signed value of a byte read as two's complement.
pub open spec fn signed_byte(b: u8) -> i32 {
    if b < 128 {
        b as i32
    } else {
        (b as i32 - 256) as i32
    }
}

/// The byte that holds `v` (in -128..=127) as two's complement.
pub open spec fn byte_of_signed(v: i32) -> u8 {
    if v < 0 {
        (v + 256) as u8
    } else {
        v as u8
    }
}

/// Relies on `String::from_utf8`: it succeeds exactly on valid UTF-8, and the
/// string it returns holds the characters those bytes encode.
#[verifier::external_body]
fn string_from_utf8(bytes: Vec<u8>) -> (r: Option<String>)
    ensures
        r is Some <==> valid_utf8(bytes@),
        r matches Some(s) ==> s@ == decode_utf8(bytes@),
{
    String::from_utf8(bytes).ok()
}

proof fn lemma_parse_strings_none_from(b: Seq<u8>, p: int, k: nat, n: nat)
    requires
        parse_strings(b, p, k) is None,
        k <= n,
    ensures
        parse_strings(b, p, n) is None,
    decreases n - k,
{
    if k < n {
        lemma_parse_strings_none_from(b, p, k, (n - 1) as nat);
    }
}

proof fn lemma_parse_doubles_none_from(b: Seq<u8>, p: int, k: nat, n: nat)
    requires
        parse_doubles(b, p, k) is None,
        k <= n,
    ensures
        parse_doubles(b, p, n) is None,
    decreases n - k,
{
    if k < n {
        lemma_parse_doubles_none_from(b, p, k, (n - 1) as nat);
    }
}

// ---------------------------------------------------------------------------
// Round trips: wherever an encoding stands in a buffer, decoding from its
// first byte gives the value back and stops right after it.
// ---------------------------------------------------------------------------

/// A window of a window of `b` is a window of `b`.
pub proof fn lemma_window(b: Seq<u8>, p: int, e: Seq<u8>, i: int, j: int)
    requires
        0 <= p,
        p + e.len() <= b.len(),
        b.subrange(p, p + e.len()) == e,
        0 <= i <= j <= e.len(),
    ensures
        b.subrange(p + i, p + j) == e.subrange(i, j),
{
    assert forall|k: int| 0 <= k < j - i implies b.subrange(p + i, p + j)[k] == e.subrange(
        i,
        j,
    )[k] by {
        assert(b.subrange(p, p + e.len())[i + k] == b[p + i + k]);
    }
    assert(b.subrange(p + i, p + j) =~= e.subrange(i, j));
}

/// An unsigned byte decodes to itself.
pub proof fn lemma_u8_round_trip(b: Seq<u8>, p: int, v: u8)
    requires
        0 <= p,
        p + 1 <= b.len(),
        b[p] == v,
    ensures
        parse_u8(b, p) == Some((v, p + 1)),
{
}

/// An `i32` decodes from its four bytes.
pub proof fn lemma_i32_round_trip(b: Seq<u8>, p: int, v: i32)
    requires
        0 <= p,
        p + 4 <= b.len(),
        b.subrange(p, p + 4) == enc_i32(v),
    ensures
        parse_i32(b, p) == Some((v, p + 4)),
{
    let e = enc_i32(v);
    assert(b[p] == e[0] && b[p + 1] == e[1] && b[p + 2] == e[2] && b[p + 3] == e[3]);
    let u = v as u32;
    assert(u32_of((u >> 24u32) as u8, (u >> 16u32) as u8, (u >> 8u32) as u8, u as u8) == u)
        by (bit_vector);
    assert((u as i32) == v) by (bit_vector)
        requires
            u == v as u32,
    ;
}

/// A double (bit pattern) decodes from its eight bytes.
pub proof fn lemma_f64_round_trip(b: Seq<u8>, p: int, v: u64)
    requires
        0 <= p,
        p + 8 <= b.len(),
        b.subrange(p, p + 8) == enc_f64(v),
    ensures
        parse_f64(b, p) == Some((v, p + 8)),
{
    let e = b.subrange(p, p + 8);
    assert(e[0] == (v >> 56u64) as u8 && e[1] == (v >> 48u64) as u8 && e[2] == (v >> 40u64) as u8
        && e[3] == (v >> 32u64) as u8 && e[4] == (v >> 24u64) as u8 && e[5] == (v >> 16u64) as u8
        && e[6] == (v >> 8u64) as u8 && e[7] == v as u8);
    let (e0, e1, e2, e3, e4, e5, e6, e7) = (e[0], e[1], e[2], e[3], e[4], e[5], e[6], e[7]);
    assert(((e0 as u64) << 56u64) | ((e1 as u64) << 48u64) | ((e2 as u64) << 40u64) | ((
    e3 as u64) << 32u64) | ((e4 as u64) << 24u64) | ((e5 as u64) << 16u64) | ((e6 as u64)
        << 8u64) | (e7 as u64) == v) by (bit_vector)
        requires
            e0 == (v >> 56u64) as u8,
            e1 == (v >> 48u64) as u8,
            e2 == (v >> 40u64) as u8,
            e3 == (v >> 32u64) as u8,
            e4 == (v >> 24u64) as u8,
            e5 == (v >> 16u64) as u8,
            e6 == (v >> 8u64) as u8,
            e7 == v as u8,
    ;
}

/// A string decodes from its length prefix and UTF-8 bytes.
pub proof fn lemma_string_round_trip(b: Seq<u8>, p: int, s: Seq<char>)
    requires
        string_fits(s),
        0 <= p,
        p + enc_string(s).len() <= b.len(),
        b.subrange(p, p + enc_string(s).len()) == enc_string(s),
    ensures
        parse_string(b, p) == Some((s, p + enc_string(s).len())),
{
    let bytes = encode_utf8(s);
    let n = bytes.len() as int;
    let e = enc_string(s);
    assert(e.subrange(0, 4) =~= enc_i32(n as i32));
    lemma_window(b, p, e, 0, 4);
    lemma_i32_round_trip(b, p, n as i32);
    lemma_window(b, p, e, 4, 4 + n);
    assert(e.subrange(4, 4 + n) =~= bytes);
    encode_utf8_valid_utf8(s);
    encode_utf8_decode_utf8(s);
}

/// Strings encoded one after the other decode as a sequence.
proof fn lemma_strings_round_trip(b: Seq<u8>, p: int, l: Seq<Seq<char>>)
    requires
        forall|i: int| 0 <= i < l.len() ==> string_fits(#[trigger] l[i]),
        0 <= p,
        p + enc_strings(l).len() <= b.len(),
        b.subrange(p, p + enc_strings(l).len()) == enc_strings(l),
    ensures
        parse_strings(b, p, l.len()) == Some((l, p + enc_strings(l).len())),
    decreases l.len(),
{
    if l.len() > 0 {
        let front = l.drop_last();
        let ef = enc_strings(front);
        let el = enc_string(l.last());
        let e = enc_strings(l);
        assert(e == ef + el);
        lemma_window(b, p, e, 0, ef.len() as int);
        assert(e.subrange(0, ef.len() as int) =~= ef);
        lemma_strings_round_trip(b, p, front);
        let q = p + ef.len();
        lemma_window(b, p, e, ef.len() as int, e.len() as int);
        assert(e.subrange(ef.len() as int, e.len() as int) =~= el);
        lemma_string_round_trip(b, q, l.last());
        assert(front.push(l.last()) == l);
    }
}

/// A string list decodes from its count and strings.
pub proof fn lemma_string_list_round_trip(b: Seq<u8>, p: int, l: Seq<Seq<char>>)
    requires
        l.len() <= i32::MAX,
        forall|i: int| 0 <= i < l.len() ==> string_fits(#[trigger] l[i]),
        0 <= p,
        p + enc_string_list(l).len() <= b.len(),
        b.subrange(p, p + enc_string_list(l).len()) == enc_string_list(l),
    ensures
        parse_string_list(b, p) == Some((l, p + enc_string_list(l).len())),
{
    let e = enc_string_list(l);
    lemma_window(b, p, e, 0, 4);
    assert(e.subrange(0, 4) =~= enc_i32(l.len() as i32));
    lemma_i32_round_trip(b, p, l.len() as i32);
    lemma_window(b, p, e, 4, e.len() as int);
    assert(e.subrange(4, e.len() as int) =~= enc_strings(l));
    lemma_strings_round_trip(b, p + 4, l);
}

/// Doubles encoded one after the other decode as a sequence.
proof fn lemma_doubles_round_trip(b: Seq<u8>, p: int, l: Seq<u64>)
    requires
        0 <= p,
        p + enc_doubles(l).len() <= b.len(),
        b.subrange(p, p + enc_doubles(l).len()) == enc_doubles(l),
    ensures
        parse_doubles(b, p, l.len()) == Some((l, p + enc_doubles(l).len())),
    decreases l.len(),
{
    if l.len() > 0 {
        let front = l.drop_last();
        let ef = enc_doubles(front);
        let el = enc_f64(l.last());
        let e = enc_doubles(l);
        assert(e == ef + el);
        lemma_window(b, p, e, 0, ef.len() as int);
        assert(e.subrange(0, ef.len() as int) =~= ef);
        lemma_doubles_round_trip(b, p, front);
        let q = p + ef.len();
        lemma_window(b, p, e, ef.len() as int, e.len() as int);
        assert(e.subrange(ef.len() as int, e.len() as int) =~= el);
        lemma_f64_round_trip(b, q, l.last());
        assert(front.push(l.last()) == l);
    }
}

/// A double list decodes from its count and doubles.
pub proof fn lemma_f64_list_round_trip(b: Seq<u8>, p: int, l: Seq<u64>)
    requires
        l.len() <= i32::MAX,
        0 <= p,
        p + enc_f64_list(l).len() <= b.len(),
        b.subrange(p, p + enc_f64_list(l).len()) == enc_f64_list(l),
    ensures
        parse_f64_list(b, p) == Some((l, p + enc_f64_list(l).len())),
{
    let e = enc_f64_list(l);
    lemma_window(b, p, e, 0, 4);
    assert(e.subrange(0, 4) =~= enc_i32(l.len() as i32));
    lemma_i32_round_trip(b, p, l.len() as i32);
    lemma_window(b, p, e, 4, e.len() as int);
    assert(e.subrange(4, e.len() as int) =~= enc_doubles(l));
    lemma_doubles_round_trip(b, p + 4, l);
}

} // verus!
