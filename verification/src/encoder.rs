//! The write cursor: byte order on the way out.

use crate::addr::{ips_wire, pairs_wire, Ipv4Addr};
use crate::error::{EncodeError, EncodeResult};
use crate::wire::{be16, be32, be_i32, i32_to_bits};
use vstd::prelude::*;
use vstd::utf8::encode_utf8;

verus! {

/// A type that can be written to the wire.
pub trait Encodable {
    /// The bytes that stand for this value on the wire.
    spec fn wire(&self) -> Seq<u8>;

    /// Whether every length in this value fits the field that carries it.
    spec fn encodable(&self) -> bool;

    /// Appends this value to the sink and returns how many bytes that took;
    /// fails, writing nothing, where a length does not fit its field.
    fn encode<'a>(&self, e: &mut Encoder<'a>) -> (r: EncodeResult<usize>)
        ensures
            *final(final(e).buffer) == *final(old(e).buffer),
            match r {
                Ok(n) => self.encodable() && n == self.wire().len() && final(e).wrote(
                    old(e),
                    self.wire(),
                ),
                Err(err) => !self.encodable() && err is AddOverflow && final(e).buffer@ == old(
                    e,
                ).buffer@,
            },
    ;
}

/// A write cursor over a growable byte sink.
///
/// Every write appends to the sink and returns how many bytes it appended;
/// nothing that the sink already holds is ever changed.
pub struct Encoder<'a> {
    /// The sink that the writes append to.
    pub buffer: &'a mut Vec<u8>,
}

impl<'a> Encoder<'a> {
    /// This cursor is `before` with `bytes` appended to its sink.
    pub open spec fn wrote(&self, before: &Encoder<'a>, bytes: Seq<u8>) -> bool {
        self.buffer@ == before.buffer@ + bytes
    }

    /// A cursor that appends to `buffer`.
    pub fn new(buffer: &'a mut Vec<u8>) -> (e: Encoder<'a>)
        ensures
            e.buffer@ == old(buffer)@,
            *final(e.buffer) == *final(buffer),
    {
        Encoder { buffer }
    }

    /// Appends one byte.
    pub fn write_u8(&mut self, v: u8) -> (r: EncodeResult<usize>)
        ensures
            r == Ok::<usize, EncodeError>(1),
            final(self).wrote(old(self), seq![v]),
            *final(final(self).buffer) == *final(old(self).buffer),
    {
        self.buffer.push(v);
        assert(self.buffer@ =~= old(self).buffer@ + seq![v]);
        Ok(1)
    }

    /// Appends the two bytes of `v`, most significant byte first.
    pub fn write_u16(&mut self, v: u16) -> (r: EncodeResult<usize>)
        ensures
            r == Ok::<usize, EncodeError>(2),
            final(self).wrote(old(self), be16(v)),
            *final(final(self).buffer) == *final(old(self).buffer),
    {
        self.buffer.push((v / 0x100) as u8);
        self.buffer.push((v % 0x100) as u8);
        assert(self.buffer@ =~= old(self).buffer@ + be16(v));
        Ok(2)
    }

    /// Appends the four bytes of `v`, most significant byte first.
    pub fn write_u32(&mut self, v: u32) -> (r: EncodeResult<usize>)
        ensures
            r == Ok::<usize, EncodeError>(4),
            final(self).wrote(old(self), be32(v)),
            *final(final(self).buffer) == *final(old(self).buffer),
    {
        self.buffer.push((v / 0x100_0000) as u8);
        self.buffer.push((v / 0x1_0000 % 0x100) as u8);
        self.buffer.push((v / 0x100 % 0x100) as u8);
        self.buffer.push((v % 0x100) as u8);
        assert(self.buffer@ =~= old(self).buffer@ + be32(v));
        Ok(4)
    }

    /// Appends the four bytes of `v` in two's complement, most significant
    /// byte first.
    pub fn write_i32(&mut self, v: i32) -> (r: EncodeResult<usize>)
        ensures
            r == Ok::<usize, EncodeError>(4),
            final(self).wrote(old(self), be_i32(v)),
            *final(final(self).buffer) == *final(old(self).buffer),
    {
        self.write_u32(i32_to_bits(v))
    }

    /// Appends `bytes` as they are.
    pub fn write(&mut self, bytes: &[u8]) -> (r: EncodeResult<usize>)
        ensures
            r matches Ok(n) && n == bytes@.len(),
            final(self).wrote(old(self), bytes@),
            *final(final(self).buffer) == *final(old(self).buffer),
    {
        self.buffer.extend_from_slice(bytes);
        assert(self.buffer@ =~= old(self).buffer@ + bytes@);
        Ok(bytes.len())
    }

    /// Appends `n` copies of `byte`.
    pub fn write_fill(&mut self, byte: u8, n: usize) -> (r: EncodeResult<usize>)
        ensures
            r == Ok::<usize, EncodeError>(n),
            final(self).wrote(old(self), Seq::new(n as nat, |i: int| byte)),
            *final(final(self).buffer) == *final(old(self).buffer),
    {
        let mut i: usize = 0;
        while i < n
            invariant
                i <= n,
                self.buffer@ == old(self).buffer@ + Seq::new(i as nat, |j: int| byte),
                *final(self.buffer) == *final(old(self).buffer),
            decreases n - i,
        {
            self.buffer.push(byte);
            i = i + 1;
            assert(self.buffer@ =~= old(self).buffer@ + Seq::new(i as nat, |j: int| byte));
        }
        Ok(n)
    }

    /// Appends the UTF-8 bytes of `text`.
    pub fn write_string(&mut self, text: &str) -> (r: EncodeResult<usize>)
        ensures
            r matches Ok(n) && n == encode_utf8(text@).len(),
            final(self).wrote(old(self), encode_utf8(text@)),
            *final(final(self).buffer) == *final(old(self).buffer),
    {
        self.write(text.as_bytes())
    }

    /// Appends the four bytes of `ip`.
    pub fn write_ip(&mut self, ip: Ipv4Addr) -> (r: EncodeResult<usize>)
        ensures
            r == Ok::<usize, EncodeError>(4),
            final(self).wrote(old(self), ip.wire()),
            *final(final(self).buffer) == *final(old(self).buffer),
    {
        self.buffer.push(ip.a);
        self.buffer.push(ip.b);
        self.buffer.push(ip.c);
        self.buffer.push(ip.d);
        assert(self.buffer@ =~= old(self).buffer@ + ip.wire());
        Ok(4)
    }

    /// Appends the addresses of `ips`, four bytes each; fails, writing
    /// nothing, where their byte count does not fit a `usize`.
    pub fn write_ips(&mut self, ips: &[Ipv4Addr]) -> (r: EncodeResult<usize>)
        ensures
            *final(final(self).buffer) == *final(old(self).buffer),
            match r {
                Ok(n) => n == 4 * ips@.len() && final(self).wrote(old(self), ips_wire(ips@)),
                Err(e) => e is AddOverflow && 4 * ips@.len() > usize::MAX && final(self).wrote(
                    old(self),
                    Seq::empty(),
                ),
            },
    {
        let total: usize = match ips.len().checked_mul(4) {
            Some(total) => total,
            None => {
                assert(self.buffer@ =~= old(self).buffer@ + Seq::<u8>::empty());
                return Err(EncodeError::AddOverflow);
            },
        };
        let mut i: usize = 0;
        while i < ips.len()
            invariant
                i <= ips@.len(),
                self.buffer@ == old(self).buffer@ + ips_wire(ips@.take(i as int)),
                *final(self.buffer) == *final(old(self).buffer),
            decreases ips@.len() - i,
        {
            let ip: Ipv4Addr = ips[i];
            let ghost before = self.buffer@;
            self.buffer.push(ip.a);
            self.buffer.push(ip.b);
            self.buffer.push(ip.c);
            self.buffer.push(ip.d);
            i = i + 1;
            assert(self.buffer@ =~= old(self).buffer@ + ips_wire(ips@.take(i as int))) by {
                assert(self.buffer@ =~= before + ip.wire());
                assert(ips_wire(ips@.take(i as int)) =~= ips_wire(ips@.take(i - 1)) + ip.wire());
            }
        }
        assert(ips@.take(ips@.len() as int) =~= ips@);
        Ok(total)
    }

    /// Appends the pairs of `pairs`, eight bytes each; fails, writing
    /// nothing, where their byte count does not fit a `usize`.
    pub fn write_pair_ips(&mut self, pairs: &[(Ipv4Addr, Ipv4Addr)]) -> (r: EncodeResult<usize>)
        ensures
            *final(final(self).buffer) == *final(old(self).buffer),
            match r {
                Ok(n) => n == 8 * pairs@.len() && final(self).wrote(old(self), pairs_wire(pairs@)),
                Err(e) => e is AddOverflow && 8 * pairs@.len() > usize::MAX && final(self).wrote(
                    old(self),
                    Seq::empty(),
                ),
            },
    {
        let total: usize = match pairs.len().checked_mul(8) {
            Some(total) => total,
            None => {
                assert(self.buffer@ =~= old(self).buffer@ + Seq::<u8>::empty());
                return Err(EncodeError::AddOverflow);
            },
        };
        let mut i: usize = 0;
        while i < pairs.len()
            invariant
                i <= pairs@.len(),
                self.buffer@ == old(self).buffer@ + pairs_wire(pairs@.take(i as int)),
                *final(self.buffer) == *final(old(self).buffer),
            decreases pairs@.len() - i,
        {
            let pair: (Ipv4Addr, Ipv4Addr) = pairs[i];
            let ghost before = self.buffer@;
            self.buffer.push(pair.0.a);
            self.buffer.push(pair.0.b);
            self.buffer.push(pair.0.c);
            self.buffer.push(pair.0.d);
            self.buffer.push(pair.1.a);
            self.buffer.push(pair.1.b);
            self.buffer.push(pair.1.c);
            self.buffer.push(pair.1.d);
            i = i + 1;
            assert(self.buffer@ =~= old(self).buffer@ + pairs_wire(pairs@.take(i as int))) by {
                assert(self.buffer@ =~= before + pair.0.wire() + pair.1.wire());
                assert(pairs_wire(pairs@.take(i as int)) =~= pairs_wire(pairs@.take(i - 1))
                    + pair.0.wire() + pair.1.wire());
            }
        }
        assert(pairs@.take(pairs@.len() as int) =~= pairs@);
        Ok(total)
    }
}

} // verus!
