//! The framing of Kafka messages: a big-endian `i32` size, then that many
//! bytes; and a cursor over received bytes that reads the fixed-width
//! integers of the protocol.
use crate::wire::{be_u16, be_u32, be_value, push_all};
use vstd::prelude::*;

verus! {

/// The signed value of two bytes read big-endian, two's complement.
pub open spec fn be_i16(s: Seq<u8>) -> int {
    let v = be_value(s);
    if v < 0x8000 {
        v as int
    } else {
        v - 0x1_0000
    }
}

/// The signed value of four bytes read big-endian, two's complement.
pub open spec fn be_i32(s: Seq<u8>) -> int {
    let v = be_value(s);
    if v < 0x8000_0000 {
        v as int
    } else {
        v - 0x1_0000_0000
    }
}

/// The two bytes that spell `v` (taken modulo `2^16`) big-endian.
pub open spec fn be16_bytes(v: int) -> Seq<u8> {
    let u = v % 0x1_0000;
    seq![(u / 0x100) as u8, (u % 0x100) as u8]
}

/// The four bytes that spell `v` (taken modulo `2^32`) big-endian.
pub open spec fn be32_bytes(v: int) -> Seq<u8> {
    let u = v % 0x1_0000_0000;
    seq![
        (u / 0x100_0000) as u8,
        ((u / 0x1_0000) % 0x100) as u8,
        ((u / 0x100) % 0x100) as u8,
        (u % 0x100) as u8,
    ]
}

/// Reads a big-endian `i16` from exactly two bytes.
pub fn read_i16(s: &[u8]) -> (r: i16)
    requires
        s@.len() == 2,
    ensures
        r as int == be_i16(s@),
{
    let u = be_u16(s);
    if u < 0x8000 {
        u as i16
    } else {
        ((u - 0x8000) as i16) - 0x4000 - 0x4000
    }
}

/// Reads a big-endian `i32` from exactly four bytes.
pub fn read_i32(s: &[u8]) -> (r: i32)
    requires
        s@.len() == 4,
    ensures
        r as int == be_i32(s@),
{
    let u = be_u32(s);
    if u < 0x8000_0000 {
        u as i32
    } else {
        ((u - 0x8000_0000) as i32) - 0x4000_0000 - 0x4000_0000
    }
}

/// Four bytes read big-endian, digit by digit.
proof fn lemma_be_value_4(s: Seq<u8>)
    requires
        s.len() == 4,
    ensures
        be_value(s) == ((s[0] as int * 256 + s[1] as int) * 256 + s[2] as int) * 256 + s[3] as int,
{
    assert(s.drop_last().drop_last().drop_last().drop_last() =~= Seq::<u8>::empty());
    reveal_with_fuel(be_value, 5);
}

/// Two big-endian bytes give back the `i16` they were written from.
pub proof fn lemma_be_i16_roundtrip(x: i16)
    ensures
        be_i16(be16_bytes(x as int)) == x as int,
{
    let u = (x as int) % 0x1_0000;
    let s = be16_bytes(x as int);
    assert(s.drop_last().drop_last() =~= Seq::<u8>::empty());
    reveal_with_fuel(be_value, 3);
    assert((u / 0x100) * 256 + u % 0x100 == u) by (nonlinear_arith)
        requires
            0 <= u < 0x1_0000,
    ;
}

/// Four big-endian bytes give back the `i32` they were written from.
pub proof fn lemma_be_i32_roundtrip(x: i32)
    ensures
        be_i32(be32_bytes(x as int)) == x as int,
{
    let u = (x as int) % 0x1_0000_0000;
    let s = be32_bytes(x as int);
    lemma_be_value_4(s);
    assert((((u / 0x100_0000) * 256 + (u / 0x1_0000) % 0x100) * 256 + (u / 0x100) % 0x100) * 256
        + u % 0x100 == u) by (nonlinear_arith)
        requires
            0 <= u < 0x1_0000_0000,
    ;
}

/// The bytes of a frame: the low 32 bits of the payload's length as a
/// big-endian `i32`, then the payload.
pub open spec fn framed(payload: Seq<u8>) -> Seq<u8> {
    be32_bytes(payload.len() as int) + payload
}

/// Puts the size in front of a payload, as a Kafka frame.
pub fn frame_payload(payload: &[u8]) -> (r: Vec<u8>)
    ensures
        r@ == framed(payload@),
{
    let len: u64 = payload.len() as u64;
    let u: u64 = len % 0x1_0000_0000;
    let mut out: Vec<u8> = Vec::new();
    out.push((u / 0x100_0000) as u8);
    out.push(((u / 0x1_0000) % 0x100) as u8);
    out.push(((u / 0x100) % 0x100) as u8);
    out.push((u % 0x100) as u8);
    push_all(&mut out, payload);
    assert(out@ =~= framed(payload@));
    out
}

/// The size that the first four bytes of a buffer announce.
pub open spec fn announced_size(buf: Seq<u8>) -> int {
    be_i32(buf.take(4))
}

/// The buffer holds a whole frame: a size of zero or more, and at least
/// that many bytes after it.
pub open spec fn frame_complete(buf: Seq<u8>) -> bool {
    4 <= buf.len() && 0 <= announced_size(buf) && announced_size(buf) + 4 <= buf.len()
}

/// The announced size is one on which the frame length `size as usize + 4`
/// overflows: from -4 to -1. Reading such a frame is left undefined.
pub open spec fn size_overflows(buf: Seq<u8>) -> bool {
    -4 <= announced_size(buf) < 0
}

/// Takes the first whole frame, size included, off the front of the
/// buffer; leaves the buffer as it is while the frame is not all there.
pub fn check_valid_packet(buff: &mut Vec<u8>) -> (r: Option<Vec<u8>>)
    requires
        old(buff)@.len() >= 4,
        !size_overflows(old(buff)@),
    ensures
        frame_complete(old(buff)@) <==> r is Some,
        r is None ==> final(buff)@ == old(buff)@,
        r matches Some(frame) ==> {
            let n = announced_size(old(buff)@) + 4;
            &&& frame@ == old(buff)@.take(n)
            &&& final(buff)@ == old(buff)@.skip(n)
        },
{
    let sz = read_i32(vstd::slice::slice_subrange(buff.as_slice(), 0, 4));
    if sz < 0 {
        return None;
    }
    let total: usize = sz as usize;
    if buff.len() - 4 < total {
        return None;
    }
    let total = total + 4;
    let mut frame = buff.split_off(total);
    std::mem::swap(buff, &mut frame);
    Some(frame)
}

/// The error of a read past the end of the received bytes.
#[derive(Debug, PartialEq, Eq)]
pub struct NotEnoughBytesError;

/// Received bytes, read from the front.
pub struct ByteCursor {
    data: Vec<u8>,
    pos: usize,
}

impl View for ByteCursor {
    type V = Seq<u8>;

    /// The bytes not read yet.
    closed spec fn view(&self) -> Seq<u8> {
        self.data@.subrange(self.pos as int, self.data@.len() as int)
    }
}

impl ByteCursor {
    #[verifier::type_invariant]
    spec fn inv(self) -> bool {
        self.pos <= self.data@.len()
    }

    /// A cursor at the start of `data`.
    pub fn new(data: Vec<u8>) -> (c: Self)
        ensures
            c@ == data@,
    {
        let c = ByteCursor { data, pos: 0 };
        assert(c@ =~= data@);
        c
    }

    /// The number of bytes not read yet.
    pub fn remaining(&self) -> (n: usize)
        ensures
            n == self@.len(),
    {
        proof {
            use_type_invariant(self);
        }
        self.data.len() - self.pos
    }

    /// The bytes not read yet.
    pub fn chunk(&self) -> (s: &[u8])
        ensures
            s@ == self@,
    {
        proof {
            use_type_invariant(self);
        }
        vstd::slice::slice_subrange(self.data.as_slice(), self.pos, self.data.len())
    }

    /// Skips `n` bytes.
    pub fn advance(&mut self, n: usize)
        requires
            n <= old(self)@.len(),
        ensures
            final(self)@ == old(self)@.skip(n as int),
    {
        proof {
            use_type_invariant(&*self);
        }
        let total = self.data.len();
        assert(self@.len() == total - self.pos);
        self.pos = self.pos + n;
        assert(self@ =~= old(self)@.skip(n as int));
    }

    /// Reads one byte.
    pub fn try_get_u8(&mut self) -> (r: Result<u8, NotEnoughBytesError>)
        ensures
            old(self)@.len() >= 1 <==> r is Ok,
            r matches Ok(b) ==> b == old(self)@[0] && final(self)@ == old(self)@.skip(1),
            r is Err ==> final(self)@ == old(self)@,
    {
        proof {
            use_type_invariant(&*self);
        }
        if self.pos < self.data.len() {
            let b = self.data[self.pos];
            self.pos = self.pos + 1;
            assert(self@ =~= old(self)@.skip(1));
            Ok(b)
        } else {
            Err(NotEnoughBytesError)
        }
    }

    /// Reads a big-endian `i32`.
    pub fn try_get_i32(&mut self) -> (r: Result<i32, NotEnoughBytesError>)
        ensures
            old(self)@.len() >= 4 <==> r is Ok,
            r matches Ok(v) ==> v as int == be_i32(old(self)@.take(4)) && final(self)@ == old(
                self,
            )@.skip(4),
            r is Err ==> final(self)@ == old(self)@,
    {
        proof {
            use_type_invariant(&*self);
        }
        if self.data.len() - self.pos >= 4 {
            let v = read_i32(vstd::slice::slice_subrange(self.data.as_slice(), self.pos, self.pos + 4));
            assert(self.data@.subrange(self.pos as int, self.pos + 4) =~= self@.take(4));
            self.pos = self.pos + 4;
            assert(self@ =~= old(self)@.skip(4));
            Ok(v)
        } else {
            Err(NotEnoughBytesError)
        }
    }

    /// Reads `n` bytes.
    pub fn try_get_bytes(&mut self, n: usize) -> (r: Result<Vec<u8>, NotEnoughBytesError>)
        ensures
            old(self)@.len() >= n <==> r is Ok,
            r matches Ok(b) ==> b@ == old(self)@.take(n as int) && final(self)@ == old(self)@.skip(
                n as int,
            ),
            r is Err ==> final(self)@ == old(self)@,
    {
        proof {
            use_type_invariant(&*self);
        }
        if self.data.len() - self.pos >= n {
            let b = vstd::slice::slice_to_vec(
                vstd::slice::slice_subrange(self.data.as_slice(), self.pos, self.pos + n),
            );
            assert(b@ =~= self@.take(n as int));
            self.pos = self.pos + n;
            assert(self@ =~= old(self)@.skip(n as int));
            Ok(b)
        } else {
            Err(NotEnoughBytesError)
        }
    }
}

} // verus!
