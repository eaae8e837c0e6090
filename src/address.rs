use vstd::prelude::*;
use crate::request::sockaddr;

verus! {

/// Address family tag of an IPv4 socket address.
pub const AF_INET: u16 = 2;

/// Hardware type tag of an Ethernet (MAC) address.
pub const ARPHRD_ETHER: u16 = 1;

/// The payload of an IPv4 socket address: a zero port, the four octets in
/// network order, and zero padding.
pub open spec fn ipv4_payload(a: Seq<u8>) -> Seq<u8> {
    seq![0u8, 0u8] + a + Seq::new(8, |i: int| 0u8)
}

/// Encodes an IPv4 address as the socket address record of a control call.
pub fn ipv4_to_address(a: [u8; 4]) -> (r: sockaddr)
    ensures
        r.family == AF_INET,
        r.data@ == ipv4_payload(a@),
{
    let mut data = [0u8; 14];
    data[2] = a[0];
    data[3] = a[1];
    data[4] = a[2];
    data[5] = a[3];
    assert(data@ =~= ipv4_payload(a@));
    sockaddr { family: AF_INET, data }
}

/// Reads the IPv4 address out of a socket address record.
pub fn ipv4_from_address(s: sockaddr) -> (r: [u8; 4])
    ensures
        r@ == s.data@.subrange(2, 6),
{
    let r = [s.data[2], s.data[3], s.data[4], s.data[5]];
    assert(r@ =~= s.data@.subrange(2, 6));
    r
}

/// An IPv4 address read back from its own encoding is the address itself.
pub proof fn lemma_ipv4_round_trip(a: [u8; 4], s: sockaddr)
    requires
        s.family == AF_INET,
        s.data@ == ipv4_payload(a@),
    ensures
        s.data@.subrange(2, 6) == a@,
{
    assert(s.data@.subrange(2, 6) =~= a@);
}

} // verus!
