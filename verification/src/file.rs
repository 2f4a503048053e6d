//! Byte-level reading for the little-endian asset formats: a position-backed
//! reader over a byte buffer, primitive reads, counted strings and the
//! format's fat booleans.
//!
//! Strings read from asset files are byte strings in the file's 8-bit
//! encoding: the bytes of the counted field up to its first NUL.

use vstd::prelude::*;

verus! {

/// Why a read failed.
#[derive(Clone, Copy, Debug, PartialEq, Eq, Structural)]
pub enum ParseError {
    /// The buffer ended before the field did.
    UnexpectedEof,
    /// A field held a value the format does not allow.
    InvalidData,
}

/// The little-endian 16-bit value at `p`.
pub open spec fn le16_at(d: Seq<u8>, p: int) -> u16
    recommends
        0 <= p,
        p + 2 <= d.len(),
{
    (d[p] + d[p + 1] * 0x100) as u16
}

/// The little-endian 32-bit value at `p`.
pub open spec fn le32_at(d: Seq<u8>, p: int) -> u32
    recommends
        0 <= p,
        p + 4 <= d.len(),
{
    (d[p] + d[p + 1] * 0x100 + d[p + 2] * 0x1_0000 + d[p + 3] * 0x100_0000) as u32
}

/// The bytes of the counted string of `n` bytes at `p`: everything up to,
/// not including, the first NUL.
pub open spec fn counted_string_at(d: Seq<u8>, p: int, n: int) -> Seq<u8>
    recommends
        0 <= p,
        p + n <= d.len(),
    decreases n,
{
    if n <= 0 || d[p] == 0 {
        Seq::empty()
    } else {
        seq![d[p]] + counted_string_at(d, p + 1, n - 1)
    }
}

/// A counted string is its no-NUL prefix: if the first `i` of `n` bytes at
/// `p` are non-NUL and either `i` is `n` or the next byte is NUL, the
/// counted string is exactly those `i` bytes.
pub proof fn lemma_counted_string_prefix(d: Seq<u8>, p: int, n: int, i: int)
    requires
        0 <= p,
        0 <= i <= n,
        p + n <= d.len(),
        forall|j: int| 0 <= j < i ==> #[trigger] d[p + j] != 0,
        i == n || d[p + i] == 0,
    ensures
        counted_string_at(d, p, n) =~= Seq::new(i as nat, |j: int| d[p + j]),
    decreases i,
{
    if i == 0 {
    } else {
        assert(d[p + 0] != 0);
        assert forall|j: int| 0 <= j < i - 1 implies #[trigger] d[(p + 1) + j] != 0 by {
            assert(d[p + (j + 1)] != 0);
        }
        lemma_counted_string_prefix(d, p + 1, n - 1, i - 1);
    }
}

/// A counted string is never longer than its field.
pub proof fn lemma_counted_string_len(d: Seq<u8>, p: int, n: int)
    ensures
        counted_string_at(d, p, n).len() <= (if n <= 0 {
            0
        } else {
            n
        }),
    decreases n,
{
    if n <= 0 || d[p] == 0 {
    } else {
        lemma_counted_string_len(d, p + 1, n - 1);
    }
}

/// A reader over a byte buffer, advancing a position. A failed read leaves
/// the reader unchanged.
pub struct ByteReader {
    bytes: Vec<u8>,
    pos: usize,
}

/// Reading of counted strings, as the asset formats store names and chunk
/// tags.
pub trait ReadString {
    fn read_sized_string(&mut self, n: usize) -> Result<Vec<u8>, ParseError>;
}

/// Reading of the format's 32-bit booleans.
pub trait ReadFatBool {
    fn read_fat_bool(&mut self) -> Result<bool, ParseError>;
}

impl ByteReader {
    /// The whole underlying buffer.
    pub closed spec fn data(&self) -> Seq<u8> {
        self.bytes@
    }

    /// The read position.
    pub closed spec fn position(&self) -> nat {
        self.pos as nat
    }

    /// The position never passes the end of the buffer.
    #[verifier::type_invariant]
    pub open spec fn wf(self) -> bool {
        self.position() <= self.data().len()
    }

    /// How many bytes are left to read.
    pub open spec fn remaining(&self) -> nat {
        (self.data().len() - self.position()) as nat
    }

    pub fn new(bytes: Vec<u8>) -> (r: ByteReader)
        ensures
            r.wf(),
            r.data() == bytes@,
            r.position() == 0,
    {
        ByteReader { bytes, pos: 0 }
    }

    /// Whether every byte has been read.
    pub fn is_empty(&self) -> (r: bool)
        ensures
            r == (self.remaining() == 0),
    {
        proof {
            use_type_invariant(&*self);
        }
        self.pos >= self.bytes.len()
    }

    /// The current position.
    pub fn tell(&self) -> (p: usize)
        ensures
            p == self.position(),
    {
        self.pos
    }

    /// Move the position to `p` (used to skip to the next entry).
    pub fn seek(&mut self, p: usize)
        requires
            p <= old(self).data().len(),
        ensures
            final(self).wf(),
            final(self).data() == old(self).data(),
            final(self).position() == p,
    {
        self.pos = p;
    }

    /// Total length of the underlying buffer.
    pub fn data_len(&self) -> (n: usize)
        ensures
            n == self.data().len(),
    {
        self.bytes.len()
    }

    /// How many bytes are left to read.
    pub fn remaining_len(&self) -> (n: usize)
        ensures
            n == self.remaining(),
    {
        proof {
            use_type_invariant(&*self);
        }
        self.bytes.len() - self.pos
    }

    pub fn read_u8(&mut self) -> (r: Result<u8, ParseError>)
        ensures
            final(self).wf(),
            final(self).data() == old(self).data(),
            match r {
                Ok(b) => {
                    &&& old(self).remaining() >= 1
                    &&& b == old(self).data()[old(self).position() as int]
                    &&& final(self).position() == old(self).position() + 1
                },
                Err(e) => {
                    &&& e == ParseError::UnexpectedEof
                    &&& old(self).remaining() < 1
                    &&& final(self).position() == old(self).position()
                },
            },
    {
        proof {
            use_type_invariant(&*self);
        }
        if self.pos < self.bytes.len() {
            let b = self.bytes[self.pos];
            self.pos = self.pos + 1;
            Ok(b)
        } else {
            Err(ParseError::UnexpectedEof)
        }
    }

    pub fn read_u16_le(&mut self) -> (r: Result<u16, ParseError>)
        ensures
            final(self).wf(),
            final(self).data() == old(self).data(),
            match r {
                Ok(v) => {
                    &&& old(self).remaining() >= 2
                    &&& v == le16_at(old(self).data(), old(self).position() as int)
                    &&& final(self).position() == old(self).position() + 2
                },
                Err(e) => {
                    &&& e == ParseError::UnexpectedEof
                    &&& old(self).remaining() < 2
                    &&& final(self).position() == old(self).position()
                },
            },
    {
        proof {
            use_type_invariant(&*self);
        }
        if self.bytes.len() - self.pos >= 2 {
            let b0 = self.bytes[self.pos];
            let b1 = self.bytes[self.pos + 1];
            self.pos = self.pos + 2;
            Ok(b0 as u16 + (b1 as u16) * 0x100)
        } else {
            Err(ParseError::UnexpectedEof)
        }
    }

    pub fn read_u32_le(&mut self) -> (r: Result<u32, ParseError>)
        ensures
            final(self).wf(),
            final(self).data() == old(self).data(),
            match r {
                Ok(v) => {
                    &&& old(self).remaining() >= 4
                    &&& v == le32_at(old(self).data(), old(self).position() as int)
                    &&& final(self).position() == old(self).position() + 4
                },
                Err(e) => {
                    &&& e == ParseError::UnexpectedEof
                    &&& old(self).remaining() < 4
                    &&& final(self).position() == old(self).position()
                },
            },
    {
        proof {
            use_type_invariant(&*self);
        }
        if self.bytes.len() - self.pos >= 4 {
            let b0 = self.bytes[self.pos] as u32;
            let b1 = self.bytes[self.pos + 1] as u32;
            let b2 = self.bytes[self.pos + 2] as u32;
            let b3 = self.bytes[self.pos + 3] as u32;
            self.pos = self.pos + 4;
            Ok(b0 + b1 * 0x100 + b2 * 0x1_0000 + b3 * 0x100_0000)
        } else {
            Err(ParseError::UnexpectedEof)
        }
    }

    /// Read a 32-bit value when at least four bytes are known to remain.
    pub fn read_u32_checked(&mut self) -> (v: u32)
        requires
            old(self).remaining() >= 4,
        ensures
            final(self).data() == old(self).data(),
            v == le32_at(old(self).data(), old(self).position() as int),
            final(self).position() == old(self).position() + 4,
    {
        match self.read_u32_le() {
            Ok(v) => v,
            Err(_) => unreached(),
        }
    }

    /// Read exactly `n` bytes.
    pub fn read_exact(&mut self, n: usize) -> (r: Result<Vec<u8>, ParseError>)
        ensures
            final(self).wf(),
            final(self).data() == old(self).data(),
            match r {
                Ok(v) => {
                    &&& old(self).remaining() >= n
                    &&& v@ == old(self).data().subrange(
                        old(self).position() as int,
                        old(self).position() + n,
                    )
                    &&& final(self).position() == old(self).position() + n
                },
                Err(e) => {
                    &&& e == ParseError::UnexpectedEof
                    &&& old(self).remaining() < n
                    &&& final(self).position() == old(self).position()
                },
            },
    {
        proof {
            use_type_invariant(&*self);
        }
        if self.bytes.len() - self.pos >= n {
            let end: usize = self.pos + n;
            let mut v: Vec<u8> = Vec::new();
            let mut i: usize = 0;
            while i < n
                invariant
                    i <= n,
                    end == self.pos + n,
                    self.pos + n <= self.bytes@.len(),
                    v@ =~= self.bytes@.subrange(self.pos as int, self.pos + i),
                decreases n - i,
            {
                v.push(self.bytes[self.pos + i]);
                i = i + 1;
            }
            self.pos = end;
            Ok(v)
        } else {
            Err(ParseError::UnexpectedEof)
        }
    }

    /// Read up to `n` bytes: everything left when fewer remain. Never fails.
    pub fn read_up_to(&mut self, n: usize) -> (v: Vec<u8>)
        ensures
            final(self).wf(),
            final(self).data() == old(self).data(),
            v@ == old(self).data().subrange(
                old(self).position() as int,
                old(self).position() + (if n <= old(self).remaining() {
                    n as int
                } else {
                    old(self).remaining() as int
                }),
            ),
            final(self).position() == old(self).position() + (if n <= old(self).remaining() {
                n as int
            } else {
                old(self).remaining() as int
            }),
    {
        proof {
            use_type_invariant(&*self);
        }
        let avail = self.bytes.len() - self.pos;
        let take_n = if n <= avail {
            n
        } else {
            avail
        };
        match self.read_exact(take_n) {
            Ok(v) => v,
            Err(_) => unreached(),
        }
    }
}

impl ReadString for ByteReader {
    /// Read a counted string of `n` bytes and keep everything up to its
    /// first NUL. All `n` bytes are consumed; fails only when fewer than `n`
    /// bytes remain, leaving the reader unchanged.
    fn read_sized_string(&mut self, n: usize) -> (r: Result<Vec<u8>, ParseError>)
        ensures
            final(self).wf(),
            final(self).data() == old(self).data(),
            match r {
                Ok(v) => {
                    &&& old(self).remaining() >= n
                    &&& v@ == counted_string_at(
                        old(self).data(),
                        old(self).position() as int,
                        n as int,
                    )
                    &&& final(self).position() == old(self).position() + n
                },
                Err(e) => {
                    &&& e == ParseError::UnexpectedEof
                    &&& old(self).remaining() < n
                    &&& final(self).position() == old(self).position()
                },
            },
    {
        proof {
            use_type_invariant(&*self);
        }
        if self.bytes.len() - self.pos < n {
            return Err(ParseError::UnexpectedEof);
        }
        let start = self.pos;
        let end: usize = start + n;
        let mut v: Vec<u8> = Vec::new();
        let mut i: usize = 0;
        while i < n && self.bytes[start + i] != 0
            invariant
                i <= n,
                end == start + n,
                start + n <= self.bytes@.len(),
                start == self.pos,
                forall|j: int| 0 <= j < i ==> #[trigger] self.bytes@[start + j] != 0,
                v@ =~= Seq::new(i as nat, |j: int| self.bytes@[start + j]),
            decreases n - i,
        {
            v.push(self.bytes[start + i]);
            i = i + 1;
        }
        proof {
            lemma_counted_string_prefix(self.bytes@, start as int, n as int, i as int);
        }
        self.pos = end;
        Ok(v)
    }
}

impl ReadFatBool for ByteReader {
    /// Read the format's 32-bit boolean: zero is false, anything else is
    /// true (the format writes one, but damaged files hold other values, and
    /// those count as true).
    fn read_fat_bool(&mut self) -> (r: Result<bool, ParseError>)
        ensures
            final(self).wf(),
            final(self).data() == old(self).data(),
            match r {
                Ok(b) => {
                    &&& old(self).remaining() >= 4
                    &&& b == (le32_at(old(self).data(), old(self).position() as int) != 0)
                    &&& final(self).position() == old(self).position() + 4
                },
                Err(e) => {
                    &&& e == ParseError::UnexpectedEof
                    &&& old(self).remaining() < 4
                    &&& final(self).position() == old(self).position()
                },
            },
    {
        match self.read_u32_le() {
            Ok(v) => Ok(v != 0),
            Err(e) => Err(e),
        }
    }
}

/// A three-component vector, each component carried as the 32-bit pattern of
/// its value.
#[derive(Clone, Copy, Debug, PartialEq, Eq, Structural)]
pub struct Vec3Bits {
    pub x: u32,
    pub y: u32,
    pub z: u32,
}

/// A four-component vector, each component carried as the 32-bit pattern of
/// its value.
#[derive(Clone, Copy, Debug, PartialEq, Eq, Structural)]
pub struct Vec4Bits {
    pub x: u32,
    pub y: u32,
    pub z: u32,
    pub w: u32,
}

/// Reading of the formats' packed little-endian vectors.
pub trait ReadVec {
    fn read_vec3_bits(&mut self) -> Result<Vec3Bits, ParseError>;

    fn read_vec4_bits(&mut self) -> Result<Vec4Bits, ParseError>;
}

impl ReadVec for ByteReader {
    /// Three consecutive little-endian 32-bit component patterns.
    fn read_vec3_bits(&mut self) -> (r: Result<Vec3Bits, ParseError>)
        ensures
            final(self).data() == old(self).data(),
            match r {
                Ok(v) => {
                    &&& old(self).remaining() >= 12
                    &&& v.x == le32_at(old(self).data(), old(self).position() as int)
                    &&& v.y == le32_at(old(self).data(), old(self).position() as int + 4)
                    &&& v.z == le32_at(old(self).data(), old(self).position() as int + 8)
                    &&& final(self).position() == old(self).position() + 12
                },
                Err(e) => {
                    &&& e == ParseError::UnexpectedEof
                    &&& old(self).remaining() < 12
                    &&& final(self).position() == old(self).position()
                },
            },
    {
        proof {
            use_type_invariant(&*self);
        }
        if self.remaining_len() < 12 {
            return Err(ParseError::UnexpectedEof);
        }
        let x = self.read_u32_checked();
        let y = self.read_u32_checked();
        let z = self.read_u32_checked();
        Ok(Vec3Bits { x, y, z })
    }

    /// Four consecutive little-endian 32-bit component patterns.
    fn read_vec4_bits(&mut self) -> (r: Result<Vec4Bits, ParseError>)
        ensures
            final(self).data() == old(self).data(),
            match r {
                Ok(v) => {
                    &&& old(self).remaining() >= 16
                    &&& v.x == le32_at(old(self).data(), old(self).position() as int)
                    &&& v.y == le32_at(old(self).data(), old(self).position() as int + 4)
                    &&& v.z == le32_at(old(self).data(), old(self).position() as int + 8)
                    &&& v.w == le32_at(old(self).data(), old(self).position() as int + 12)
                    &&& final(self).position() == old(self).position() + 16
                },
                Err(e) => {
                    &&& e == ParseError::UnexpectedEof
                    &&& old(self).remaining() < 16
                    &&& final(self).position() == old(self).position()
                },
            },
    {
        proof {
            use_type_invariant(&*self);
        }
        if self.remaining_len() < 16 {
            return Err(ParseError::UnexpectedEof);
        }
        let x = self.read_u32_checked();
        let y = self.read_u32_checked();
        let z = self.read_u32_checked();
        let w = self.read_u32_checked();
        Ok(Vec4Bits { x, y, z, w })
    }
}

/// The four little-endian bytes of a 32-bit value.
pub open spec fn le32_bytes(v: u32) -> Seq<u8> {
    seq![
        (v % 0x100) as u8,
        ((v / 0x100) % 0x100) as u8,
        ((v / 0x1_0000) % 0x100) as u8,
        ((v / 0x100_0000) % 0x100) as u8,
    ]
}

/// The two little-endian bytes of a 16-bit value.
pub open spec fn le16_bytes(v: u16) -> Seq<u8> {
    seq![(v % 0x100) as u8, ((v / 0x100) % 0x100) as u8]
}

/// `n` NUL bytes.
pub open spec fn nul_bytes(n: int) -> Seq<u8> {
    Seq::new((if n <= 0 {
        0
    } else {
        n
    }) as nat, |i: int| 0u8)
}

/// Writing of the formats' little-endian fields and padded counted strings,
/// as the save path builds them.
pub trait WriteExt {
    fn write_u16_le(&mut self, v: u16);

    fn write_u32_le(&mut self, v: u32);

    fn write_string(&mut self, s: &Vec<u8>, n: usize) -> Result<(), ParseError>;
}

impl WriteExt for Vec<u8> {
    /// Append the two little-endian bytes of `v`.
    fn write_u16_le(&mut self, v: u16)
        ensures
            final(self)@ == old(self)@ + le16_bytes(v),
    {
        self.push((v % 0x100) as u8);
        self.push(((v / 0x100) % 0x100) as u8);
        proof {
            assert(self@ =~= old(self)@ + le16_bytes(v));
        }
    }

    /// Append the four little-endian bytes of `v`.
    fn write_u32_le(&mut self, v: u32)
        ensures
            final(self)@ == old(self)@ + le32_bytes(v),
    {
        self.push((v % 0x100) as u8);
        self.push(((v / 0x100) % 0x100) as u8);
        self.push(((v / 0x1_0000) % 0x100) as u8);
        self.push(((v / 0x100_0000) % 0x100) as u8);
        proof {
            assert(self@ =~= old(self)@ + le32_bytes(v));
        }
    }

    /// Append `s` as a counted field of `n` bytes, padded with NULs. A
    /// string longer than its field is rejected, and nothing is written.
    fn write_string(&mut self, s: &Vec<u8>, n: usize) -> (r: Result<(), ParseError>)
        ensures
            match r {
                Ok(_) => {
                    &&& s@.len() <= n
                    &&& final(self)@ == old(self)@ + s@ + nul_bytes(n - s@.len())
                },
                Err(e) => {
                    &&& e == ParseError::InvalidData
                    &&& s@.len() > n
                    &&& final(self)@ == old(self)@
                },
            },
    {
        if s.len() > n {
            return Err(ParseError::InvalidData);
        }
        let pad: usize = n - s.len();
        let mut i: usize = 0;
        while i < s.len()
            invariant
                i <= s@.len(),
                self@ =~= old(self)@ + s@.take(i as int),
            decreases s@.len() - i,
        {
            self.push(s[i]);
            i = i + 1;
        }
        proof {
            assert(self@ =~= old(self)@ + s@);
        }
        let mut j: usize = 0;
        while j < pad
            invariant
                j <= pad,
                self@ =~= old(self)@ + s@ + nul_bytes(j as int),
            decreases pad - j,
        {
            self.push(0);
            proof {
                assert(self@ =~= old(self)@ + s@ + nul_bytes(j + 1));
            }
            j = j + 1;
        }
        Ok(())
    }
}

/// Law: a written 32-bit field reads back as itself — `le32_at` at the point
/// the field was appended returns exactly the written value.
pub proof fn lemma_le32_round_trip(prefix: Seq<u8>, v: u32)
    ensures
        le32_at(prefix + le32_bytes(v), prefix.len() as int) == v,
{
    let d = prefix + le32_bytes(v);
    let p = prefix.len() as int;
    assert(d[p] == (v % 0x100) as u8);
    assert(d[p + 1] == ((v / 0x100) % 0x100) as u8);
    assert(d[p + 2] == ((v / 0x1_0000) % 0x100) as u8);
    assert(d[p + 3] == ((v / 0x100_0000) % 0x100) as u8);
    vstd::arithmetic::div_mod::lemma_fundamental_div_mod(v as int, 0x100);
    vstd::arithmetic::div_mod::lemma_fundamental_div_mod(v as int / 0x100, 0x100);
    vstd::arithmetic::div_mod::lemma_fundamental_div_mod(v as int / 0x1_0000, 0x100);
    assert(v as int / 0x100 / 0x100 == v as int / 0x1_0000) by (nonlinear_arith);
    assert(v as int / 0x1_0000 / 0x100 == v as int / 0x100_0000) by (nonlinear_arith);
    assert(v as int / 0x100_0000 < 0x100) by (nonlinear_arith)
        requires
            v <= 0xFFFF_FFFFu32,
    ;
    vstd::arithmetic::div_mod::lemma_small_mod((v as int / 0x100_0000) as nat, 0x100);
}

/// Law: a written 16-bit field reads back as itself.
pub proof fn lemma_le16_round_trip(prefix: Seq<u8>, v: u16)
    ensures
        le16_at(prefix + le16_bytes(v), prefix.len() as int) == v,
{
    let d = prefix + le16_bytes(v);
    let p = prefix.len() as int;
    assert(d[p] == (v % 0x100) as u8);
    assert(d[p + 1] == ((v / 0x100) % 0x100) as u8);
    vstd::arithmetic::div_mod::lemma_fundamental_div_mod(v as int, 0x100);
    assert(v as int / 0x100 < 0x100) by (nonlinear_arith)
        requires
            v <= 0xFFFFu16,
    ;
    vstd::arithmetic::div_mod::lemma_small_mod((v as int / 0x100) as nat, 0x100);
}

/// Law: a written counted string reads back as itself — for a NUL-free
/// string that fits its field, the counted string at the point the field
/// was appended is exactly the written string.
pub proof fn lemma_string_field_round_trip(prefix: Seq<u8>, s: Seq<u8>, n: int)
    requires
        s.len() <= n,
        forall|i: int| 0 <= i < s.len() ==> #[trigger] s[i] != 0,
    ensures
        counted_string_at(prefix + s + nul_bytes(n - s.len()), prefix.len() as int, n) =~= s,
{
    let d = prefix + s + nul_bytes(n - s.len());
    let p = prefix.len() as int;
    assert forall|j: int| 0 <= j < s.len() implies #[trigger] d[p + j] != 0 by {
        assert(d[p + j] == s[j]);
    }
    lemma_counted_string_prefix(d, p, n, s.len() as int);
    assert(Seq::new(s.len(), |j: int| d[p + j]) =~= s);
}

} // verus!
