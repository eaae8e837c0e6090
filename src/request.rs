use vstd::prelude::*;
use vstd::utf8::{
    decode_utf8, encode_utf8, encode_utf8_decode_utf8, encode_utf8_valid_utf8,
    is_char_boundary_start_end_of_seq, valid_utf8,
};
use vstd::utf8::is_char_boundary;
use vstd::string::StringSliceAdditionalSpecFns;

verus! {

/// Width of the kernel's interface-name field, terminating NUL included.
pub const IFNAMSIZ: usize = 16;

/// Binding flag: a layer-3 (TUN) device.
pub const IFF_TUN: i16 = 0x0001;

/// Binding flag: a layer-2 (TAP) device.
pub const IFF_TAP: i16 = 0x0002;

/// Binding flag: frames carry no packet-information prefix.
pub const IFF_NO_PI: i16 = 0x1000;

/// Binding flag: several descriptors serve one interface.
pub const IFF_MULTI_QUEUE: i16 = 0x0100;

/// Interface flag: the interface is up.
pub const IFF_UP: i16 = 0x0001;

/// Interface flag: the interface's link is running.
pub const IFF_RUNNING: i16 = 0x0040;

/// An address record as the interface control calls carry it: a family tag and
/// fourteen bytes of family-specific payload.
#[allow(non_camel_case_types)]
#[derive(Clone, Copy, Debug, PartialEq, Eq)]
pub struct sockaddr {
    pub family: u16,
    pub data: [u8; 14],
}

/// The payload of an interface request; each control call reads or writes
/// exactly one of these shapes.
#[derive(Clone, Copy, Debug, PartialEq, Eq)]
pub enum IfData {
    Empty,
    Flags(i16),
    Mtu(i32),
    Addr(sockaddr),
    /// The kernel's index of the interface.
    Index(i32),
}

/// The request that assigns an IPv6 address: the address, its prefix
/// length, and the index of the interface it goes to. It travels through an
/// IPv6 control socket; IPv4 requests cannot carry a prefix length.
#[derive(Clone, Copy, Debug, PartialEq, Eq)]
pub struct In6Req {
    pub addr: [u8; 16],
    pub prefix: u32,
    pub index: i32,
}

/// An interface request: the fixed-width, NUL-padded interface name and the
/// payload of one control call.
#[allow(non_camel_case_types)]
#[derive(Clone, Copy, Debug, PartialEq, Eq)]
pub struct ifreq {
    pub name: [u8; 16],
    pub data: IfData,
}

/// Number of leading bytes of `b` kept in the name field: at most
/// `IFNAMSIZ - 1`, backed off to the nearest character boundary.
pub open spec fn kept_len(b: Seq<u8>) -> nat {
    kept_len_from(b, if b.len() < IFNAMSIZ - 1 { b.len() as nat } else { (IFNAMSIZ - 1) as nat })
}

pub open spec fn kept_len_from(b: Seq<u8>, k: nat) -> nat
    decreases k,
{
    if k == 0 || is_char_boundary(b, k as int) {
        k
    } else {
        kept_len_from(b, (k - 1) as nat)
    }
}

/// The name field that a request for interface `b` carries: the kept prefix,
/// padded with NUL bytes to the full width.
pub open spec fn name_field(b: Seq<u8>) -> Seq<u8> {
    b.subrange(0, kept_len(b) as int) + Seq::new((IFNAMSIZ - kept_len(b)) as nat, |i: int| 0u8)
}

/// Index of the first NUL byte of `s` at or after `i`, or `s.len()` if none.
pub open spec fn nul_from(s: Seq<u8>, i: int) -> int
    decreases s.len() - i,
{
    if i < 0 || i >= s.len() {
        s.len() as int
    } else if s[i] == 0 {
        i
    } else {
        nul_from(s, i + 1)
    }
}

/// The bytes of a NUL-terminated field, up to its terminator.
pub open spec fn field_text(s: Seq<u8>) -> Seq<u8> {
    s.subrange(0, nul_from(s, 0))
}

proof fn lemma_kept_len_from_bound(b: Seq<u8>, k: nat)
    ensures
        kept_len_from(b, k) <= k,
    decreases k,
{
    if !(k == 0 || is_char_boundary(b, k as int)) {
        lemma_kept_len_from_bound(b, (k - 1) as nat);
    }
}

proof fn lemma_nul_from_bound(s: Seq<u8>, i: int)
    requires
        0 <= i <= s.len(),
    ensures
        i <= nul_from(s, i) <= s.len(),
    decreases s.len() - i,
{
    if i < s.len() && s[i] != 0 {
        lemma_nul_from_bound(s, i + 1);
    }
}

/// Relies on `std::str::from_utf8`: it succeeds exactly on valid UTF-8 and
/// then yields the text those bytes encode.
#[verifier::external_body]
fn utf8_text(b: &[u8]) -> (r: Option<String>)
    ensures
        r is Some <==> valid_utf8(b@),
        r matches Some(s) ==> s@ == decode_utf8(b@),
{
    match std::str::from_utf8(b) {
        Ok(s) => Some(s.to_owned()),
        Err(_) => None,
    }
}

proof fn lemma_nul_after(f: Seq<u8>, n: int, i: int)
    requires
        0 <= i <= n < f.len(),
        f[n] == 0,
        forall|j: int| i <= j < n ==> f[j] != 0,
    ensures
        nul_from(f, i) == n,
    decreases n - i,
{
    if i < n {
        lemma_nul_after(f, n, i + 1);
    }
}

/// A name that fits the field reads back as given: a name of at most
/// `IFNAMSIZ - 1` bytes, none of them NUL, is carried whole in the request,
/// and the text read back from that field is the name itself.
pub proof fn lemma_name_read_back(name: Seq<char>)
    requires
        encode_utf8(name).len() < IFNAMSIZ,
        forall|i: int| 0 <= i < encode_utf8(name).len() ==> encode_utf8(name)[i] != 0,
    ensures
        field_text(name_field(encode_utf8(name))) == encode_utf8(name),
        valid_utf8(field_text(name_field(encode_utf8(name)))),
        decode_utf8(field_text(name_field(encode_utf8(name)))) == name,
{
    let b = encode_utf8(name);
    encode_utf8_valid_utf8(name);
    encode_utf8_decode_utf8(name);
    is_char_boundary_start_end_of_seq(b);
    assert(kept_len(b) == b.len());
    let f = name_field(b);
    assert(f.len() == IFNAMSIZ);
    assert(f[b.len() as int] == 0);
    lemma_nul_after(f, b.len() as int, 0);
    assert(field_text(f) =~= b);
}

impl ifreq {
    /// A request naming interface `name` with an empty payload. The name is
    /// truncated to the field's width (keeping room for the NUL), at a
    /// character boundary; an empty name leaves the choice to the kernel.
    pub fn new(name: &str) -> (r: ifreq)
        ensures
            r.name@ == name_field(name.spec_bytes()),
            r.data is Empty,
    {
        let bytes = name.as_bytes();
        let ghost b = bytes@;
        let mut k: usize = if bytes.len() < IFNAMSIZ - 1 { bytes.len() } else { IFNAMSIZ - 1 };
        while k > 0 && !name.is_char_boundary(k)
            invariant
                k <= bytes@.len(),
                k <= IFNAMSIZ - 1,
                b == name.spec_bytes(),
                bytes@ == b,
                kept_len(b) == kept_len_from(b, k as nat),
            decreases k,
        {
            k = k - 1;
        }
        let mut field = [0u8; 16];
        let mut i: usize = 0;
        while i < k
            invariant
                i <= k,
                k <= bytes@.len(),
                k < IFNAMSIZ,
                bytes@ == b,
                field@.len() == IFNAMSIZ,
                forall|j: int| 0 <= j < i ==> field@[j] == b[j],
                forall|j: int| i <= j < IFNAMSIZ ==> field@[j] == 0u8,
            decreases k - i,
        {
            field[i] = bytes[i];
            i = i + 1;
        }
        assert(field@ =~= name_field(b));
        ifreq { name: field, data: IfData::Empty }
    }

    /// The bytes of the name field up to its NUL terminator.
    pub fn name_bytes(&self) -> (r: Vec<u8>)
        ensures
            r@ == field_text(self.name@),
    {
        let ghost s = self.name@;
        let mut out: Vec<u8> = Vec::new();
        let mut i: usize = 0;
        while i < IFNAMSIZ && self.name[i] != 0
            invariant
                i <= IFNAMSIZ,
                s == self.name@,
                s.len() == IFNAMSIZ,
                nul_from(s, 0) == nul_from(s, i as int),
                out@ == s.subrange(0, i as int),
            decreases IFNAMSIZ - i,
        {
            out.push(self.name[i]);
            i = i + 1;
            assert(out@ =~= s.subrange(0, i as int));
        }
        assert(nul_from(s, i as int) == i as int);
        out
    }

    /// The interface name carried by this request, when it is valid UTF-8.
    pub fn name(&self) -> (r: Option<String>)
        ensures
            r is Some <==> valid_utf8(field_text(self.name@)),
            r matches Some(s) ==> s@ == decode_utf8(field_text(self.name@)),
    {
        let b = self.name_bytes();
        utf8_text(b.as_slice())
    }
}

} // verus!
