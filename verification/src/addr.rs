//! Internet addresses as the messages carry them.

use vstd::prelude::*;

verus! {

/// An IPv4 address: four octets, first octet first.
#[derive(Debug, Clone, Copy, PartialEq, Eq, Hash, Structural)]
pub struct Ipv4Addr {
    pub a: u8,
    pub b: u8,
    pub c: u8,
    pub d: u8,
}

impl Ipv4Addr {
    /// The four bytes of the address on the wire.
    pub open spec fn wire(self) -> Seq<u8> {
        seq![self.a, self.b, self.c, self.d]
    }

    /// The address read from the first four bytes of `bytes` at `index`.
    pub open spec fn at(bytes: Seq<u8>, index: int) -> Ipv4Addr {
        Ipv4Addr { a: bytes[index], b: bytes[index + 1], c: bytes[index + 2], d: bytes[index + 3] }
    }

    /// The address `a.b.c.d`.
    pub fn new(a: u8, b: u8, c: u8, d: u8) -> (ip: Ipv4Addr)
        ensures
            ip == (Ipv4Addr { a, b, c, d }),
    {
        Ipv4Addr { a, b, c, d }
    }

    /// The address whose octets are `octets`, in order.
    pub fn from_octets(octets: [u8; 4]) -> (ip: Ipv4Addr)
        ensures
            ip.wire() == octets@,
    {
        let ip = Ipv4Addr { a: octets[0], b: octets[1], c: octets[2], d: octets[3] };
        assert(ip.wire() =~= octets@);
        ip
    }

    /// The four octets, in order.
    pub fn octets(&self) -> (octets: [u8; 4])
        ensures
            octets@ == self.wire(),
    {
        let octets: [u8; 4] = [self.a, self.b, self.c, self.d];
        assert(octets@ =~= self.wire());
        octets
    }
}

/// An IPv6 address: sixteen octets, first octet first.
#[derive(Debug, Clone, Copy, PartialEq, Eq, Hash)]
pub struct Ipv6Addr {
    pub octets: [u8; 16],
}

impl View for Ipv6Addr {
    type V = Seq<u8>;

    /// The sixteen bytes of the address on the wire.
    open spec fn view(&self) -> Seq<u8> {
        self.octets@
    }
}

impl Ipv6Addr {
    /// The address whose octets are `octets`, in order.
    pub fn new(octets: [u8; 16]) -> (ip: Ipv6Addr)
        ensures
            ip@ == octets@,
    {
        Ipv6Addr { octets }
    }

    /// The sixteen octets, in order.
    pub fn octets(&self) -> (octets: [u8; 16])
        ensures
            octets@ == self@,
    {
        self.octets
    }
}

/// The addresses of a list, each as its four bytes, one after the other.
pub open spec fn ips_wire(ips: Seq<Ipv4Addr>) -> Seq<u8> {
    Seq::new(4 * ips.len(), |i: int| ips[i / 4].wire()[i % 4])
}

/// The list of addresses that `bytes` holds, four bytes each; bytes beyond
/// the last whole group of four are not part of it.
pub open spec fn ips_of(bytes: Seq<u8>) -> Seq<Ipv4Addr> {
    Seq::new((bytes.len() / 4) as nat, |i: int| Ipv4Addr::at(bytes, 4 * i))
}

/// The pairs of a list, each as the four bytes of its first address and the
/// four of its second, one pair after the other.
pub open spec fn pairs_wire(pairs: Seq<(Ipv4Addr, Ipv4Addr)>) -> Seq<u8> {
    Seq::new(
        8 * pairs.len(),
        |i: int| if i % 8 < 4 {
            pairs[i / 8].0.wire()[i % 8]
        } else {
            pairs[i / 8].1.wire()[i % 8 - 4]
        },
    )
}

/// The list of address pairs that `bytes` holds, eight bytes each.
pub open spec fn pairs_of(bytes: Seq<u8>) -> Seq<(Ipv4Addr, Ipv4Addr)> {
    Seq::new(
        (bytes.len() / 8) as nat,
        |i: int| (Ipv4Addr::at(bytes, 8 * i), Ipv4Addr::at(bytes, 8 * i + 4)),
    )
}

/// Reading back the bytes of a list of addresses gives the list.
pub proof fn lemma_ips_round_trip(ips: Seq<Ipv4Addr>)
    ensures
        ips_wire(ips).len() == 4 * ips.len(),
        ips_of(ips_wire(ips)) == ips,
{
    let w = ips_wire(ips);
    assert(w.len() / 4 == ips.len());
    assert forall|i: int| 0 <= i < ips.len() implies #[trigger] ips_of(w)[i] == ips[i] by {
        assert((4 * i) / 4 == i && (4 * i) % 4 == 0);
        assert((4 * i + 1) / 4 == i && (4 * i + 1) % 4 == 1);
        assert((4 * i + 2) / 4 == i && (4 * i + 2) % 4 == 2);
        assert((4 * i + 3) / 4 == i && (4 * i + 3) % 4 == 3);
    }
    assert(ips_of(w) =~= ips);
}

/// Reading back the bytes of a list of address pairs gives the list.
pub proof fn lemma_pairs_round_trip(pairs: Seq<(Ipv4Addr, Ipv4Addr)>)
    ensures
        pairs_wire(pairs).len() == 8 * pairs.len(),
        pairs_of(pairs_wire(pairs)) == pairs,
{
    let w = pairs_wire(pairs);
    assert(w.len() / 8 == pairs.len());
    assert forall|i: int| 0 <= i < pairs.len() implies #[trigger] pairs_of(w)[i] == pairs[i] by {
        assert((8 * i) / 8 == i && (8 * i) % 8 == 0);
        assert((8 * i + 1) / 8 == i && (8 * i + 1) % 8 == 1);
        assert((8 * i + 2) / 8 == i && (8 * i + 2) % 8 == 2);
        assert((8 * i + 3) / 8 == i && (8 * i + 3) % 8 == 3);
        assert((8 * i + 4) / 8 == i && (8 * i + 4) % 8 == 4);
        assert((8 * i + 5) / 8 == i && (8 * i + 5) % 8 == 5);
        assert((8 * i + 6) / 8 == i && (8 * i + 6) % 8 == 6);
        assert((8 * i + 7) / 8 == i && (8 * i + 7) % 8 == 7);
    }
    assert(pairs_of(w) =~= pairs);
}

} // verus!
