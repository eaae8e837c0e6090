use vstd::prelude::*;
use crate::error::Error;

verus! {

/// The complete, immutable description of a device to create. Every optional
/// field left out keeps the kernel's default.
#[derive(Clone, Debug, PartialEq, Eq)]
pub struct Params {
    pub name: Option<String>,
    pub flags: i16,
    pub persist: bool,
    pub up: bool,
    pub mtu: Option<i32>,
    pub owner: Option<i32>,
    pub group: Option<i32>,
    pub address: Option<[u8; 4]>,
    /// An IPv6 address with its prefix length.
    pub address6: Option<([u8; 16], u8)>,
    pub destination: Option<[u8; 4]>,
    pub broadcast: Option<[u8; 4]>,
    pub netmask: Option<[u8; 4]>,
    pub cloexec: bool,
}

/// The largest IPv6 prefix length.
pub const MAX_PREFIX6: u8 = 128;

/// Parameters that describe a device that can exist: an IPv6 prefix length
/// is at most 128.
pub open spec fn params_valid(p: Params) -> bool {
    match p.address6 {
        Some((_, n)) => n <= MAX_PREFIX6,
        None => true,
    }
}

impl Params {
    /// Checks the parameters as a whole, before any device is allocated.
    pub fn check(&self) -> (r: Result<(), Error>)
        ensures
            r is Ok <==> params_valid(*self),
            r matches Err(e) ==> self.address6 matches Some((_, n)) && e == Error::InvalidPrefix(n),
    {
        match self.address6 {
            Some((_, n)) => if n > MAX_PREFIX6 {
                Err(Error::InvalidPrefix(n))
            } else {
                Ok(())
            },
            None => Ok(()),
        }
    }
}

} // verus!
