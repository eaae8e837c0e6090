use vstd::prelude::*;
use crate::address::ARPHRD_ETHER;
use crate::request::sockaddr;
use vstd::string::StringSliceAdditionalSpecFns;

verus! {

/// A 48-bit hardware (MAC) address.
#[derive(Clone, Copy, Debug, PartialEq, Eq)]
pub struct MacAddr(pub [u8; 6]);

/// Why a text is not a MAC address.
#[derive(Clone, Copy, Debug, PartialEq, Eq, Structural)]
pub enum MacAddrError {
    /// The text is not exactly 17 bytes long.
    Length,
    /// A separator between two octets is not `:`.
    Separator,
    /// An octet is not two hexadecimal digits.
    Digit,
}

/// The value of an ASCII hexadecimal digit, either case.
pub open spec fn hex_value(c: u8) -> Option<u8> {
    if 0x30 <= c <= 0x39 {
        Some((c - 0x30) as u8)
    } else if 0x41 <= c <= 0x46 {
        Some((c - 0x41 + 10) as u8)
    } else if 0x61 <= c <= 0x66 {
        Some((c - 0x61 + 10) as u8)
    } else {
        None
    }
}

/// The upper-case hexadecimal digit of `d` (below 16).
pub open spec fn hex_char(d: u8) -> char {
    if d < 10 {
        (d + 0x30) as char
    } else {
        (d - 10 + 0x41) as char
    }
}

/// Octet `i` of a MAC text: two digits at offset `3 * i`.
pub open spec fn octet_at(b: Seq<u8>, i: int) -> u8 {
    (16 * hex_value(b[3 * i]).unwrap() + hex_value(b[3 * i + 1]).unwrap()) as u8
}

/// The first fault in octets `i..6` of a 17-byte MAC text, checking each
/// octet's leading separator before its digits.
pub open spec fn mac_fault_from(b: Seq<u8>, i: int) -> Option<MacAddrError>
    decreases 6 - i,
{
    if i < 0 || i >= 6 {
        None
    } else if i > 0 && b[3 * i - 1] != 0x3a {
        Some(MacAddrError::Separator)
    } else if hex_value(b[3 * i]) is None || hex_value(b[3 * i + 1]) is None {
        Some(MacAddrError::Digit)
    } else {
        mac_fault_from(b, i + 1)
    }
}

/// What parsing the bytes `b` as `XX:XX:XX:XX:XX:XX` gives.
pub open spec fn parse_mac(b: Seq<u8>) -> Result<Seq<u8>, MacAddrError> {
    if b.len() != 17 {
        Err(MacAddrError::Length)
    } else {
        match mac_fault_from(b, 0) {
            Some(e) => Err(e),
            None => Ok(Seq::new(6, |i: int| octet_at(b, i))),
        }
    }
}

/// Two upper-case hexadecimal digits of an octet.
pub open spec fn octet_text(o: u8) -> Seq<char> {
    seq![hex_char(o / 16), hex_char(o % 16)]
}

/// The canonical text of a MAC address: six octets in upper-case
/// hexadecimal, separated by colons.
pub open spec fn mac_text(m: Seq<u8>) -> Seq<char> {
    octet_text(m[0]) + seq![':'] + octet_text(m[1]) + seq![':'] + octet_text(m[2]) + seq![':']
        + octet_text(m[3]) + seq![':'] + octet_text(m[4]) + seq![':'] + octet_text(m[5])
}

/// The payload of a hardware socket address: the six octets, then zeros.
pub open spec fn mac_payload(m: Seq<u8>) -> Seq<u8> {
    m + Seq::new(8, |i: int| 0u8)
}

fn hex_digit_value(c: u8) -> (r: Option<u8>)
    ensures
        r == hex_value(c),
{
    if 0x30 <= c && c <= 0x39 {
        Some(c - 0x30)
    } else if 0x41 <= c && c <= 0x46 {
        Some(c - 0x41 + 10)
    } else if 0x61 <= c && c <= 0x66 {
        Some(c - 0x61 + 10)
    } else {
        None
    }
}

fn hex_digit_str(d: u8) -> (r: &'static str)
    requires
        d < 16,
    ensures
        r@ == seq![hex_char(d)],
{
    proof {
        reveal_strlit("0");
        reveal_strlit("1");
        reveal_strlit("2");
        reveal_strlit("3");
        reveal_strlit("4");
        reveal_strlit("5");
        reveal_strlit("6");
        reveal_strlit("7");
        reveal_strlit("8");
        reveal_strlit("9");
        reveal_strlit("A");
        reveal_strlit("B");
        reveal_strlit("C");
        reveal_strlit("D");
        reveal_strlit("E");
        reveal_strlit("F");
    }
    let r = match d {
        0 => "0",
        1 => "1",
        2 => "2",
        3 => "3",
        4 => "4",
        5 => "5",
        6 => "6",
        7 => "7",
        8 => "8",
        9 => "9",
        10 => "A",
        11 => "B",
        12 => "C",
        13 => "D",
        14 => "E",
        _ => "F",
    };
    assert(r@ =~= seq![hex_char(d)]);
    r
}

fn push_octet(s: &mut String, o: u8)
    ensures
        final(s)@ == old(s)@ + octet_text(o),
{
    s.append(hex_digit_str(o / 16));
    s.append(hex_digit_str(o % 16));
    assert(final(s)@ =~= old(s)@ + octet_text(o));
}

fn push_colon(s: &mut String)
    ensures
        final(s)@ == old(s)@ + seq![':'],
{
    proof {
        reveal_strlit(":");
    }
    s.append(":");
}

impl MacAddr {
    pub fn new(data: [u8; 6]) -> (r: MacAddr)
        ensures
            r.0 == data,
    {
        MacAddr(data)
    }

    pub fn octets(&self) -> (r: [u8; 6])
        ensures
            r == self.0,
    {
        self.0
    }

    /// Parses `XX:XX:XX:XX:XX:XX`, two hexadecimal digits of either case
    /// per octet.
    pub fn parse(s: &str) -> (r: Result<MacAddr, MacAddrError>)
        ensures
            match r {
                Ok(m) => parse_mac(s.spec_bytes()) == Ok::<Seq<u8>, MacAddrError>(m.0@),
                Err(e) => parse_mac(s.spec_bytes()) == Err::<Seq<u8>, MacAddrError>(e),
            },
    {
        let b = s.as_bytes();
        if b.len() != 17 {
            return Err(MacAddrError::Length);
        }
        let mut data = [0u8; 6];
        let mut i: usize = 0;
        while i < 6
            invariant
                i <= 6,
                b@ == s.spec_bytes(),
                b@.len() == 17,
                mac_fault_from(b@, 0) == mac_fault_from(b@, i as int),
                forall|j: int| 0 <= j < i ==> data@[j] == octet_at(b@, j),
            decreases 6 - i,
        {
            let off: usize = 3 * i;
            if i > 0 && b[off - 1] != 0x3a {
                return Err(MacAddrError::Separator);
            }
            let hi = hex_digit_value(b[off]);
            let lo = hex_digit_value(b[off + 1]);
            match (hi, lo) {
                (Some(h), Some(l)) => {
                    data[i] = 16 * h + l;
                },
                _ => {
                    return Err(MacAddrError::Digit);
                },
            }
            i = i + 1;
        }
        assert(data@ =~= Seq::new(6, |j: int| octet_at(b@, j)));
        Ok(MacAddr(data))
    }

    /// The canonical text of this address, `XX:XX:XX:XX:XX:XX` in upper case.
    pub fn to_string(&self) -> (r: String)
        ensures
            r@ == mac_text(self.0@),
    {
        let mut s = String::new();
        push_octet(&mut s, self.0[0]);
        push_colon(&mut s);
        push_octet(&mut s, self.0[1]);
        push_colon(&mut s);
        push_octet(&mut s, self.0[2]);
        push_colon(&mut s);
        push_octet(&mut s, self.0[3]);
        push_colon(&mut s);
        push_octet(&mut s, self.0[4]);
        push_colon(&mut s);
        push_octet(&mut s, self.0[5]);
        assert(s@ =~= mac_text(self.0@));
        s
    }

    /// Encodes this address as the hardware socket address of a control call.
    pub fn to_address(&self) -> (r: sockaddr)
        ensures
            r.family == ARPHRD_ETHER,
            r.data@ == mac_payload(self.0@),
    {
        let mut data = [0u8; 14];
        let mut i: usize = 0;
        while i < 6
            invariant
                i <= 6,
                data@.len() == 14,
                forall|j: int| 0 <= j < i ==> data@[j] == self.0@[j],
                forall|j: int| i <= j < 14 ==> data@[j] == 0u8,
            decreases 6 - i,
        {
            data[i] = self.0[i];
            i = i + 1;
        }
        assert(data@ =~= mac_payload(self.0@));
        sockaddr { family: ARPHRD_ETHER, data }
    }

    /// Reads a hardware address out of the first six payload bytes.
    pub fn from_address(s: sockaddr) -> (r: MacAddr)
        ensures
            r.0@ == s.data@.subrange(0, 6),
    {
        let r = [s.data[0], s.data[1], s.data[2], s.data[3], s.data[4], s.data[5]];
        assert(r@ =~= s.data@.subrange(0, 6));
        MacAddr(r)
    }
}

impl From<[u8; 6]> for MacAddr {
    fn from(data: [u8; 6]) -> MacAddr {
        MacAddr::new(data)
    }
}

impl vstd::std_specs::convert::FromSpecImpl<[u8; 6]> for MacAddr {
    open spec fn obeys_from_spec() -> bool {
        true
    }

    open spec fn from_spec(data: [u8; 6]) -> MacAddr {
        MacAddr(data)
    }
}

impl std::str::FromStr for MacAddr {
    type Err = MacAddrError;

    fn from_str(s: &str) -> Result<MacAddr, MacAddrError> {
        MacAddr::parse(s)
    }
}

} // verus!
