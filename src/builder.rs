use vstd::prelude::*;
use crate::params::Params;
use crate::request::{IFF_NO_PI, IFF_TAP, IFF_TUN};

verus! {

/// Describes a device to create, one property at a time. Turned into
/// [`Params`] once complete.
#[derive(Clone, Debug, PartialEq, Eq)]
pub struct TunBuilder {
    pub name: String,
    pub is_tap: bool,
    pub packet_info: bool,
    pub persist: bool,
    pub up: bool,
    pub mtu: Option<i32>,
    pub owner: Option<i32>,
    pub group: Option<i32>,
    pub address: Option<[u8; 4]>,
    pub address6: Option<([u8; 16], u8)>,
    pub destination: Option<[u8; 4]>,
    pub broadcast: Option<[u8; 4]>,
    pub netmask: Option<[u8; 4]>,
    pub mac: Option<[u8; 6]>,
}

/// A builder in its initial state: a TUN device with packet information,
/// a kernel-chosen name, and nothing else set.
pub open spec fn is_default_builder(b: TunBuilder) -> bool {
    &&& b.name@.len() == 0
    &&& !b.is_tap
    &&& b.packet_info
    &&& !b.persist
    &&& !b.up
    &&& b.mtu is None
    &&& b.owner is None
    &&& b.group is None
    &&& b.address is None
    &&& b.address6 is None
    &&& b.destination is None
    &&& b.broadcast is None
    &&& b.netmask is None
    &&& b.mac is None
}

/// The binding flags that a builder asks for: TUN or TAP, plus "no packet
/// information" when that was switched off.
pub open spec fn binding_flags(is_tap: bool, packet_info: bool) -> i16 {
    let kind = if is_tap { IFF_TAP } else { IFF_TUN };
    if packet_info { kind } else { kind | IFF_NO_PI }
}

/// The parameters that a builder describes.
pub open spec fn params_of(b: TunBuilder) -> Params {
    Params {
        name: if b.name@.len() == 0 { None } else { Some(b.name) },
        flags: binding_flags(b.is_tap, b.packet_info),
        persist: b.persist,
        up: b.up,
        mtu: b.mtu,
        owner: b.owner,
        group: b.group,
        address: b.address,
        address6: b.address6,
        destination: b.destination,
        broadcast: b.broadcast,
        netmask: b.netmask,
        cloexec: false,
    }
}

impl Default for TunBuilder {
    fn default() -> (r: TunBuilder)
        ensures
            is_default_builder(r),
    {
        TunBuilder {
            name: String::new(),
            is_tap: false,
            packet_info: true,
            persist: false,
            up: false,
            mtu: None,
            owner: None,
            group: None,
            address: None,
            address6: None,
            destination: None,
            broadcast: None,
            netmask: None,
            mac: None,
        }
    }
}

impl TunBuilder {
    pub fn new() -> (r: TunBuilder)
        ensures
            is_default_builder(r),
    {
        TunBuilder::default()
    }

    /// Sets the interface name; an empty name lets the kernel choose one.
    /// A name wider than the kernel's field is truncated when the device is
    /// bound.
    pub fn name(self, name: &str) -> (r: TunBuilder)
        ensures
            r.name@ == name@,
            r == (TunBuilder { name: r.name, ..self }),
    {
        TunBuilder { name: name.to_owned(), ..self }
    }

    /// Chooses a TAP (layer 2) device instead of a TUN (layer 3) one.
    pub fn tap(self, is_tap: bool) -> (r: TunBuilder)
        ensures
            r == (TunBuilder { is_tap, ..self }),
    {
        TunBuilder { is_tap, ..self }
    }

    /// Whether each frame carries the 4-byte packet-information prefix.
    pub fn packet_info(self, packet_info: bool) -> (r: TunBuilder)
        ensures
            r == (TunBuilder { packet_info, ..self }),
    {
        TunBuilder { packet_info, ..self }
    }

    pub fn mtu(self, mtu: i32) -> (r: TunBuilder)
        ensures
            r == (TunBuilder { mtu: Some(mtu), ..self }),
    {
        TunBuilder { mtu: Some(mtu), ..self }
    }

    /// Sets the numeric user id that owns the device.
    pub fn owner(self, owner: i32) -> (r: TunBuilder)
        ensures
            r == (TunBuilder { owner: Some(owner), ..self }),
    {
        TunBuilder { owner: Some(owner), ..self }
    }

    /// Sets the numeric group id that owns the device.
    pub fn group(self, group: i32) -> (r: TunBuilder)
        ensures
            r == (TunBuilder { group: Some(group), ..self }),
    {
        TunBuilder { group: Some(group), ..self }
    }

    /// Sets the IPv4 address, as four octets in network order.
    pub fn address(self, address: [u8; 4]) -> (r: TunBuilder)
        ensures
            r == (TunBuilder { address: Some(address), ..self }),
    {
        TunBuilder { address: Some(address), ..self }
    }

    /// Sets an IPv6 address with its prefix length (at most 128; checked
    /// before the device is created).
    pub fn address6(self, address: [u8; 16], prefix: u8) -> (r: TunBuilder)
        ensures
            r == (TunBuilder { address6: Some((address, prefix)), ..self }),
    {
        TunBuilder { address6: Some((address, prefix)), ..self }
    }

    /// Records a hardware address. It is kept with the description but not
    /// applied to the interface.
    pub fn mac(self, mac: [u8; 6]) -> (r: TunBuilder)
        ensures
            r == (TunBuilder { mac: Some(mac), ..self }),
    {
        TunBuilder { mac: Some(mac), ..self }
    }

    /// Sets the IPv4 destination (point-to-point peer) address.
    pub fn destination(self, dst: [u8; 4]) -> (r: TunBuilder)
        ensures
            r == (TunBuilder { destination: Some(dst), ..self }),
    {
        TunBuilder { destination: Some(dst), ..self }
    }

    pub fn broadcast(self, broadcast: [u8; 4]) -> (r: TunBuilder)
        ensures
            r == (TunBuilder { broadcast: Some(broadcast), ..self }),
    {
        TunBuilder { broadcast: Some(broadcast), ..self }
    }

    pub fn netmask(self, netmask: [u8; 4]) -> (r: TunBuilder)
        ensures
            r == (TunBuilder { netmask: Some(netmask), ..self }),
    {
        TunBuilder { netmask: Some(netmask), ..self }
    }

    /// Keeps the device after the creating process exits.
    pub fn persist(self) -> (r: TunBuilder)
        ensures
            r == (TunBuilder { persist: true, ..self }),
    {
        TunBuilder { persist: true, ..self }
    }

    /// Brings the interface up once it is configured.
    pub fn up(self) -> (r: TunBuilder)
        ensures
            r == (TunBuilder { up: true, ..self }),
    {
        TunBuilder { up: true, ..self }
    }
}

impl From<TunBuilder> for Params {
    fn from(b: TunBuilder) -> Params {
        let kind = if b.is_tap { IFF_TAP } else { IFF_TUN };
        let flags = if b.packet_info { kind } else { kind | IFF_NO_PI };
        let name = if b.name.as_str().is_empty() { None } else { Some(b.name) };
        Params {
            name,
            flags,
            persist: b.persist,
            up: b.up,
            mtu: b.mtu,
            owner: b.owner,
            group: b.group,
            address: b.address,
            address6: b.address6,
            destination: b.destination,
            broadcast: b.broadcast,
            netmask: b.netmask,
            cloexec: false,
        }
    }
}

impl vstd::std_specs::convert::FromSpecImpl<TunBuilder> for Params {
    open spec fn obeys_from_spec() -> bool {
        true
    }

    open spec fn from_spec(b: TunBuilder) -> Params {
        params_of(b)
    }
}

} // verus!
