//! The read cursor: bounds and byte order on the way in.

use crate::addr::{ips_of, pairs_of, Ipv4Addr};
use crate::error::{invalid_length, DecodeError, DecodeFault, DecodeResult};
use crate::wire::{i32_at, i32_from_bits, u16_at, u16_from_be, u32_at, u32_from_be};
use vstd::prelude::*;
use vstd::slice::slice_subrange;
use vstd::string::StringSliceAdditionalSpecFns;
use vstd::utf8::{decode_utf8, encode_utf8_decode_utf8, valid_utf8};

verus! {

/// The `n` bytes of `bytes` that start at `index`, or the failure of a read
/// that finds fewer than `n` bytes there.
pub open spec fn take(bytes: Seq<u8>, index: int, n: int) -> Result<Seq<u8>, DecodeFault> {
    if index + n <= bytes.len() {
        Ok(bytes.subrange(index, index + n))
    } else {
        Err(DecodeFault::EndOfBuffer { index })
    }
}

/// `bytes` without its last byte where that byte is NUL, else `bytes`.
pub open spec fn strip_nul(bytes: Seq<u8>) -> Seq<u8> {
    if bytes.len() > 0 && bytes.last() == 0 {
        bytes.drop_last()
    } else {
        bytes
    }
}

/// The text that `bytes` spell in UTF-8 once one trailing NUL is dropped.
pub open spec fn text_in(bytes: Seq<u8>) -> Result<Seq<char>, DecodeFault> {
    if valid_utf8(strip_nul(bytes)) {
        Ok(decode_utf8(strip_nul(bytes)))
    } else {
        Err(DecodeFault::Utf8Error)
    }
}

/// The index of the first NUL of `bytes` at or after `from`, or the length
/// of `bytes` if there is none.
pub open spec fn nul_from(bytes: Seq<u8>, from: int) -> int
    decreases bytes.len() - from,
{
    if from < 0 || from >= bytes.len() || bytes[from] == 0 {
        from
    } else {
        nul_from(bytes, from + 1)
    }
}

/// The text that `bytes` spell in UTF-8 before their first NUL.
pub open spec fn padded_text_in(bytes: Seq<u8>) -> Result<Seq<char>, DecodeFault> {
    if valid_utf8(bytes.take(nul_from(bytes, 0))) {
        Ok(decode_utf8(bytes.take(nul_from(bytes, 0))))
    } else {
        Err(DecodeFault::Utf8Error)
    }
}

/// The list of addresses that `bytes` are: at least one, four bytes each.
pub open spec fn ips_in(bytes: Seq<u8>) -> Result<Seq<Ipv4Addr>, DecodeFault> {
    if bytes.len() > 0 && bytes.len() % 4 == 0 {
        Ok(ips_of(bytes))
    } else {
        Err(invalid_length())
    }
}

/// The list of address pairs that `bytes` are: eight bytes each.
pub open spec fn pairs_in(bytes: Seq<u8>) -> Result<Seq<(Ipv4Addr, Ipv4Addr)>, DecodeFault> {
    if bytes.len() % 8 == 0 {
        Ok(pairs_of(bytes))
    } else {
        Err(invalid_length())
    }
}

/// [`core::str::from_utf8`]: `bytes` as text where they are UTF-8, and
/// nothing where they are not. The text has exactly these bytes.
#[verifier::external_body]
fn utf8_text<'b>(bytes: &'b [u8]) -> (r: Option<&'b str>)
    ensures
        r is Some <==> valid_utf8(bytes@),
        r matches Some(s) ==> s.spec_bytes() == bytes@,
{
    core::str::from_utf8(bytes).ok()
}

/// A type that can be read from the wire.
pub trait Decodable: Sized + View {
    /// What reading a value at `index` of `bytes` gives: the content of the
    /// value and the index after it, or the failure.
    spec fn parse(bytes: Seq<u8>, index: int) -> Result<(Self::V, int), DecodeFault>;

    /// Reads a value at the cursor. The cursor ends up after the value, or
    /// where it was if the read fails.
    fn decode<'a>(decoder: &mut Decoder<'a>) -> (r: DecodeResult<Self>)
        ensures
            final(decoder).bytes() == old(decoder).bytes(),
            match Self::parse(old(decoder).bytes(), old(decoder).position()) {
                Ok((value, next)) => r matches Ok(v) && v@ == value && final(decoder).position()
                    == next,
                Err(e) => r matches Err(err) && err@ == e && final(decoder).position() == old(
                    decoder,
                ).position(),
            },
    ;
}

/// A read cursor over a byte buffer.
///
/// Every read either returns its value and moves the cursor by exactly the
/// bytes it stands for, or fails and leaves the cursor where it was.
pub struct Decoder<'a> {
    buffer: &'a [u8],
    index: usize,
}

impl<'a> Decoder<'a> {
    #[verifier::type_invariant]
    spec fn in_bounds(self) -> bool {
        self.index <= self.buffer@.len()
    }

    /// The whole buffer.
    pub closed spec fn bytes(&self) -> Seq<u8> {
        self.buffer@
    }

    /// The index of the next byte to read.
    pub closed spec fn position(&self) -> int {
        self.index as int
    }

    /// How many bytes are left to read.
    pub open spec fn remaining(&self) -> int {
        self.bytes().len() - self.position()
    }

    /// This cursor is `before` moved forward by `n` bytes.
    pub open spec fn advanced(&self, before: &Decoder<'a>, n: int) -> bool {
        &&& self.bytes() == before.bytes()
        &&& self.position() == before.position() + n
    }

    /// A cursor at the start of `buffer`.
    pub fn new(buffer: &'a [u8]) -> (d: Decoder<'a>)
        ensures
            d.bytes() == buffer@,
            d.position() == 0,
    {
        Decoder { buffer, index: 0 }
    }

    /// The index of the next byte to read; it never passes the buffer's end.
    pub fn index(&self) -> (i: usize)
        ensures
            i == self.position(),
            i <= self.bytes().len(),
    {
        proof {
            use_type_invariant(self);
        }
        self.index
    }

    /// Whether every byte has been read.
    pub fn is_empty(&self) -> (empty: bool)
        ensures
            empty == (self.remaining() == 0),
            self.remaining() >= 0,
    {
        proof {
            use_type_invariant(self);
        }
        self.index == self.buffer.len()
    }

    /// The bytes not yet read.
    pub fn buffer(&self) -> (rest: &'a [u8])
        ensures
            rest@ == self.bytes().subrange(self.position(), self.bytes().len() as int),
    {
        proof {
            use_type_invariant(self);
        }
        slice_subrange(self.buffer, self.index, self.buffer.len())
    }

    /// Moves the cursor back to `index`, a position it has been at.
    pub(crate) fn rewind(&mut self, index: usize)
        requires
            index <= old(self).position(),
        ensures
            final(self).bytes() == old(self).bytes(),
            final(self).position() == index,
    {
        proof {
            use_type_invariant(&*self);
        }
        self.index = index;
    }

    /// Reads one byte.
    pub fn read_u8(&mut self) -> (r: DecodeResult<u8>)
        ensures
            match take(old(self).bytes(), old(self).position(), 1) {
                Ok(s) => r == Ok::<u8, DecodeError>(s[0]) && final(self).advanced(old(self), 1),
                Err(e) => r is Err && r.unwrap_err()@ == e && *final(self) == *old(self),
            },
            old(self).remaining() < 1 ==> r is Err && r.unwrap_err()@ == (DecodeFault::EndOfBuffer {
                index: old(self).position(),
            }) && *final(self) == *old(self),
    {
        proof {
            use_type_invariant(&*self);
        }
        if self.buffer.len() - self.index < 1 {
            return Err(DecodeError::EndOfBuffer { index: self.index });
        }
        let v: u8 = self.buffer[self.index];
        self.index = self.index + 1;
        Ok(v)
    }

    /// Reads two bytes as a number, most significant byte first.
    pub fn read_u16(&mut self) -> (r: DecodeResult<u16>)
        ensures
            match take(old(self).bytes(), old(self).position(), 2) {
                Ok(s) => r == Ok::<u16, DecodeError>(u16_at(s, 0)) && final(self).advanced(
                    old(self),
                    2,
                ),
                Err(e) => r is Err && r.unwrap_err()@ == e && *final(self) == *old(self),
            },
            old(self).remaining() < 2 ==> r is Err && r.unwrap_err()@ == (DecodeFault::EndOfBuffer {
                index: old(self).position(),
            }) && *final(self) == *old(self),
    {
        proof {
            use_type_invariant(&*self);
        }
        if self.buffer.len() - self.index < 2 {
            return Err(DecodeError::EndOfBuffer { index: self.index });
        }
        let v: u16 = u16_from_be(self.buffer[self.index], self.buffer[self.index + 1]);
        self.index = self.index + 2;
        Ok(v)
    }

    /// Reads four bytes as a number, most significant byte first.
    pub fn read_u32(&mut self) -> (r: DecodeResult<u32>)
        ensures
            match take(old(self).bytes(), old(self).position(), 4) {
                Ok(s) => r == Ok::<u32, DecodeError>(u32_at(s, 0)) && final(self).advanced(
                    old(self),
                    4,
                ),
                Err(e) => r is Err && r.unwrap_err()@ == e && *final(self) == *old(self),
            },
            old(self).remaining() < 4 ==> r is Err && r.unwrap_err()@ == (DecodeFault::EndOfBuffer {
                index: old(self).position(),
            }) && *final(self) == *old(self),
    {
        proof {
            use_type_invariant(&*self);
        }
        if self.buffer.len() - self.index < 4 {
            return Err(DecodeError::EndOfBuffer { index: self.index });
        }
        let v: u32 = u32_from_be(
            self.buffer[self.index],
            self.buffer[self.index + 1],
            self.buffer[self.index + 2],
            self.buffer[self.index + 3],
        );
        self.index = self.index + 4;
        Ok(v)
    }

    /// Reads four bytes as a signed number in two's complement, most
    /// significant byte first.
    pub fn read_i32(&mut self) -> (r: DecodeResult<i32>)
        ensures
            match take(old(self).bytes(), old(self).position(), 4) {
                Ok(s) => r == Ok::<i32, DecodeError>(i32_at(s, 0)) && final(self).advanced(
                    old(self),
                    4,
                ),
                Err(e) => r is Err && r.unwrap_err()@ == e && *final(self) == *old(self),
            },
            old(self).remaining() < 4 ==> r is Err && r.unwrap_err()@ == (DecodeFault::EndOfBuffer {
                index: old(self).position(),
            }) && *final(self) == *old(self),
    {
        match self.read_u32() {
            Ok(u) => Ok(i32_from_bits(u)),
            Err(e) => Err(e),
        }
    }

    /// Borrows the next `n` bytes of the buffer.
    pub fn read_slice(&mut self, n: usize) -> (r: DecodeResult<&'a [u8]>)
        ensures
            match take(old(self).bytes(), old(self).position(), n as int) {
                Ok(s) => r is Ok && r.unwrap()@ == s && final(self).advanced(old(self), n as int),
                Err(e) => r is Err && r.unwrap_err()@ == e && *final(self) == *old(self),
            },
            old(self).remaining() < n ==> r is Err && r.unwrap_err()@ == (DecodeFault::EndOfBuffer {
                index: old(self).position(),
            }) && *final(self) == *old(self),
    {
        proof {
            use_type_invariant(&*self);
        }
        if self.buffer.len() - self.index < n {
            return Err(DecodeError::EndOfBuffer { index: self.index });
        }
        let s: &'a [u8] = slice_subrange(self.buffer, self.index, self.index + n);
        self.index = self.index + n;
        Ok(s)
    }

    /// Copies the next `N` bytes into an array.
    pub fn read_array<const N: usize>(&mut self) -> (r: DecodeResult<[u8; N]>)
        ensures
            match take(old(self).bytes(), old(self).position(), N as int) {
                Ok(s) => r is Ok && r.unwrap()@ == s && final(self).advanced(old(self), N as int),
                Err(e) => r is Err && r.unwrap_err()@ == e && *final(self) == *old(self),
            },
            old(self).remaining() < N ==> r is Err && r.unwrap_err()@ == (DecodeFault::EndOfBuffer {
                index: old(self).position(),
            }) && *final(self) == *old(self),
    {
        proof {
            use_type_invariant(&*self);
        }
        if self.buffer.len() - self.index < N {
            return Err(DecodeError::EndOfBuffer { index: self.index });
        }
        let mut array: [u8; N] = [0u8; N];
        let mut i: usize = 0;
        while i < N
            invariant
                i <= N,
                self.index + N <= self.buffer@.len() <= usize::MAX,
                forall|j: int| 0 <= j < i ==> array@[j] == self.buffer@[self.index + j],
            decreases N - i,
        {
            array[i] = self.buffer[self.index + i];
            i = i + 1;
        }
        assert(array@ =~= self.buffer@.subrange(self.index as int, self.index + N));
        self.index = self.index + N;
        Ok(array)
    }

    /// Reads the next `n` bytes as UTF-8 text; one trailing NUL is dropped.
    pub fn read_string(&mut self, n: usize) -> (r: DecodeResult<String>)
        ensures
            match take(old(self).bytes(), old(self).position(), n as int) {
                Ok(s) => match text_in(s) {
                    Ok(text) => r is Ok && r.unwrap()@ == text && final(self).advanced(
                        old(self),
                        n as int,
                    ),
                    Err(e) => r is Err && r.unwrap_err()@ == e && *final(self) == *old(self),
                },
                Err(e) => r is Err && r.unwrap_err()@ == e && *final(self) == *old(self),
            },
            old(self).remaining() < n ==> r is Err && r.unwrap_err()@ == (DecodeFault::EndOfBuffer {
                index: old(self).position(),
            }) && *final(self) == *old(self),
    {
        proof {
            use_type_invariant(&*self);
        }
        if self.buffer.len() - self.index < n {
            return Err(DecodeError::EndOfBuffer { index: self.index });
        }
        let end: usize = self.index + n;
        let stop: usize = if n > 0 && self.buffer[end - 1] == 0 {
            end - 1
        } else {
            end
        };
        let body: &[u8] = slice_subrange(self.buffer, self.index, stop);
        assert(body@ =~= strip_nul(self.buffer@.subrange(self.index as int, end as int)));
        match utf8_text(body) {
            Some(text) => {
                proof {
                    encode_utf8_decode_utf8(text@);
                }
                self.index = end;
                Ok(text.to_owned())
            },
            None => Err(DecodeError::Utf8Error),
        }
    }

    /// Reads the next `n` bytes as a slot that holds UTF-8 text and is
    /// filled up with NUL: the text is what stands before the first NUL.
    pub fn read_padded_string(&mut self, n: usize) -> (r: DecodeResult<String>)
        ensures
            match take(old(self).bytes(), old(self).position(), n as int) {
                Ok(s) => match padded_text_in(s) {
                    Ok(text) => r is Ok && r.unwrap()@ == text && final(self).advanced(
                        old(self),
                        n as int,
                    ),
                    Err(e) => r is Err && r.unwrap_err()@ == e && *final(self) == *old(self),
                },
                Err(e) => r is Err && r.unwrap_err()@ == e && *final(self) == *old(self),
            },
            old(self).remaining() < n ==> r is Err && r.unwrap_err()@ == (DecodeFault::EndOfBuffer {
                index: old(self).position(),
            }) && *final(self) == *old(self),
    {
        proof {
            use_type_invariant(&*self);
        }
        if self.buffer.len() - self.index < n {
            return Err(DecodeError::EndOfBuffer { index: self.index });
        }
        let slot: &[u8] = slice_subrange(self.buffer, self.index, self.index + n);
        let mut stop: usize = 0;
        while stop < n && slot[stop] != 0
            invariant
                stop <= n,
                slot@.len() == n,
                nul_from(slot@, 0) == nul_from(slot@, stop as int),
            decreases n - stop,
        {
            stop = stop + 1;
        }
        let body: &[u8] = slice_subrange(slot, 0, stop);
        assert(body@ =~= slot@.take(nul_from(slot@, 0)));
        match utf8_text(body) {
            Some(text) => {
                proof {
                    encode_utf8_decode_utf8(text@);
                }
                self.index = self.index + n;
                Ok(text.to_owned())
            },
            None => Err(DecodeError::Utf8Error),
        }
    }

    /// Reads four bytes as an IPv4 address.
    pub fn read_ip(&mut self) -> (r: DecodeResult<Ipv4Addr>)
        ensures
            match take(old(self).bytes(), old(self).position(), 4) {
                Ok(s) => r == Ok::<Ipv4Addr, DecodeError>(Ipv4Addr::at(s, 0))
                    && final(self).advanced(old(self), 4),
                Err(e) => r is Err && r.unwrap_err()@ == e && *final(self) == *old(self),
            },
            old(self).remaining() < 4 ==> r is Err && r.unwrap_err()@ == (DecodeFault::EndOfBuffer {
                index: old(self).position(),
            }) && *final(self) == *old(self),
    {
        proof {
            use_type_invariant(&*self);
        }
        if self.buffer.len() - self.index < 4 {
            return Err(DecodeError::EndOfBuffer { index: self.index });
        }
        let ip = Ipv4Addr::new(
            self.buffer[self.index],
            self.buffer[self.index + 1],
            self.buffer[self.index + 2],
            self.buffer[self.index + 3],
        );
        self.index = self.index + 4;
        Ok(ip)
    }

    /// Reads the next `n` bytes as a list of IPv4 addresses; `n` has to be a
    /// positive multiple of four.
    pub fn read_ips(&mut self, n: usize) -> (r: DecodeResult<Vec<Ipv4Addr>>)
        ensures
            match take(old(self).bytes(), old(self).position(), n as int) {
                Ok(s) => match ips_in(s) {
                    Ok(ips) => r is Ok && r.unwrap()@ == ips && final(self).advanced(
                        old(self),
                        n as int,
                    ),
                    Err(e) => r is Err && r.unwrap_err()@ == e && *final(self) == *old(self),
                },
                Err(e) => r is Err && r.unwrap_err()@ == e && *final(self) == *old(self),
            },
            old(self).remaining() < n ==> r is Err && r.unwrap_err()@ == (DecodeFault::EndOfBuffer {
                index: old(self).position(),
            }) && *final(self) == *old(self),
    {
        proof {
            use_type_invariant(&*self);
        }
        if self.buffer.len() - self.index < n {
            return Err(DecodeError::EndOfBuffer { index: self.index });
        }
        if n == 0 || n % 4 != 0 {
            return Err(DecodeError::invalid_length());
        }
        let ghost body = self.buffer@.subrange(self.index as int, self.index + n);
        let count: usize = n / 4;
        let mut ips: Vec<Ipv4Addr> = Vec::new();
        let mut i: usize = 0;
        while i < count
            invariant
                i <= count,
                count == n / 4,
                n % 4 == 0,
                self.index + n <= self.buffer@.len() <= usize::MAX,
                body == self.buffer@.subrange(self.index as int, self.index + n),
                ips@.len() == i,
                forall|j: int| 0 <= j < i ==> ips@[j] == Ipv4Addr::at(body, 4 * j),
            decreases count - i,
        {
            let at: usize = self.index + 4 * i;
            ips.push(
                Ipv4Addr::new(
                    self.buffer[at],
                    self.buffer[at + 1],
                    self.buffer[at + 2],
                    self.buffer[at + 3],
                ),
            );
            i = i + 1;
        }
        assert(ips@ =~= ips_of(body));
        self.index = self.index + n;
        Ok(ips)
    }

    /// Reads the next `n` bytes as a list of pairs of IPv4 addresses; `n` has
    /// to be a multiple of eight.
    pub fn read_pair_ips(&mut self, n: usize) -> (r: DecodeResult<Vec<(Ipv4Addr, Ipv4Addr)>>)
        ensures
            match take(old(self).bytes(), old(self).position(), n as int) {
                Ok(s) => match pairs_in(s) {
                    Ok(pairs) => r is Ok && r.unwrap()@ == pairs && final(self).advanced(
                        old(self),
                        n as int,
                    ),
                    Err(e) => r is Err && r.unwrap_err()@ == e && *final(self) == *old(self),
                },
                Err(e) => r is Err && r.unwrap_err()@ == e && *final(self) == *old(self),
            },
            old(self).remaining() < n ==> r is Err && r.unwrap_err()@ == (DecodeFault::EndOfBuffer {
                index: old(self).position(),
            }) && *final(self) == *old(self),
    {
        proof {
            use_type_invariant(&*self);
        }
        if self.buffer.len() - self.index < n {
            return Err(DecodeError::EndOfBuffer { index: self.index });
        }
        if n % 8 != 0 {
            return Err(DecodeError::invalid_length());
        }
        let ghost body = self.buffer@.subrange(self.index as int, self.index + n);
        let count: usize = n / 8;
        let mut pairs: Vec<(Ipv4Addr, Ipv4Addr)> = Vec::new();
        let mut i: usize = 0;
        while i < count
            invariant
                i <= count,
                count == n / 8,
                n % 8 == 0,
                self.index + n <= self.buffer@.len() <= usize::MAX,
                body == self.buffer@.subrange(self.index as int, self.index + n),
                pairs@.len() == i,
                forall|j: int|
                    0 <= j < i ==> pairs@[j] == (
                        Ipv4Addr::at(body, 8 * j),
                        Ipv4Addr::at(body, 8 * j + 4),
                    ),
            decreases count - i,
        {
            let at: usize = self.index + 8 * i;
            let first = Ipv4Addr::new(
                self.buffer[at],
                self.buffer[at + 1],
                self.buffer[at + 2],
                self.buffer[at + 3],
            );
            let second = Ipv4Addr::new(
                self.buffer[at + 4],
                self.buffer[at + 5],
                self.buffer[at + 6],
                self.buffer[at + 7],
            );
            pairs.push((first, second));
            i = i + 1;
        }
        assert(pairs@ =~= pairs_of(body));
        self.index = self.index + n;
        Ok(pairs)
    }
}

} // verus!
