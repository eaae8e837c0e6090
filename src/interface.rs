use vstd::prelude::*;
use vstd::utf8::{decode_utf8, valid_utf8};
use vstd::string::StringSliceAdditionalSpecFns;
use crate::address::{ipv4_from_address, ipv4_payload, ipv4_to_address, AF_INET};
use crate::error::{Error, Property};
use crate::request::{field_text, name_field, IfData, ifreq, In6Req, IFF_MULTI_QUEUE};

verus! {

/// An interface property reached through the control socket.
#[derive(Clone, Copy, Debug, PartialEq, Eq, Structural)]
pub enum Prop {
    Mtu,
    Flags,
    Address,
    Destination,
    Broadcast,
    Netmask,
    /// The kernel's index of the interface (read only).
    Index,
}

/// The value of one interface property.
#[derive(Clone, Copy, Debug, PartialEq, Eq)]
pub enum Value {
    Mtu(i32),
    Flags(i16),
    Address([u8; 4]),
    Destination([u8; 4]),
    Broadcast([u8; 4]),
    Netmask([u8; 4]),
    Index(i32),
}

/// One operation on an interface, which may take several control calls.
#[derive(Clone, Copy, Debug, PartialEq, Eq)]
pub enum Access {
    /// Read a property.
    Read(Prop),
    /// Write a property.
    Write(Value),
    /// Read the flags, add these bits, and write the union back.
    Raise(i16),
    /// Assign an IPv6 address with its prefix length: read the interface
    /// index, then write the address. There is no matching read: the
    /// IPv4 property calls cannot report an IPv6 address.
    Address6 { addr: [u8; 16], prefix: u32 },
    /// Write an IPv6 address to the interface with the given index.
    Write6 { addr: [u8; 16], prefix: u32, index: i32 },
    /// Set the owning user on every descriptor, from index `next` on.
    Owner { uid: i32, next: usize },
    /// Set the owning group on every descriptor, from index `next` on.
    Group { gid: i32, next: usize },
    /// Make the device persistent on every descriptor, from index `next` on.
    Persist { next: usize },
}

/// One control call for the caller to issue to the kernel.
#[derive(Clone, Copy, Debug, PartialEq, Eq)]
pub enum ControlCall {
    /// Bind a descriptor to the interface the request names.
    Bind { fd: i32, req: ifreq },
    SetOwner { fd: i32, uid: i32 },
    SetGroup { fd: i32, gid: i32 },
    SetPersist { fd: i32 },
    /// Read a property through the control socket.
    Fetch { socket: i32, prop: Prop, req: ifreq },
    /// Write a property through the control socket.
    Store { socket: i32, prop: Prop, req: ifreq },
    /// Assign an IPv6 address through an IPv6 control socket.
    Store6 { req: In6Req },
}

/// What a finished access yields.
#[derive(Clone, Copy, Debug, PartialEq, Eq)]
pub enum Answer {
    Value(Value),
    Applied,
}

/// Where an access stands after the kernel answered one of its calls.
#[derive(Clone, Copy, Debug, PartialEq, Eq)]
pub enum Next {
    Done(Answer),
    Continue(Access),
}

/// A configured interface: its bound descriptors, the control socket used
/// for property calls, and its name as the kernel reported it.
#[derive(Clone, Debug)]
pub struct Interface {
    fds: Vec<i32>,
    socket: i32,
    name: String,
}

/// The flags after raising `add` on `current`: the bitwise union, so no bit
/// already set is ever cleared.
pub open spec fn raised(current: i16, add: i16) -> i16 {
    current | add
}

pub open spec fn prop_of(v: Value) -> Prop {
    match v {
        Value::Mtu(_) => Prop::Mtu,
        Value::Flags(_) => Prop::Flags,
        Value::Address(_) => Prop::Address,
        Value::Destination(_) => Prop::Destination,
        Value::Broadcast(_) => Prop::Broadcast,
        Value::Netmask(_) => Prop::Netmask,
        Value::Index(_) => Prop::Index,
    }
}

pub open spec fn prop_property(p: Prop) -> Property {
    match p {
        Prop::Mtu => Property::Mtu,
        Prop::Flags => Property::Flags,
        Prop::Address => Property::Address,
        Prop::Destination => Property::Destination,
        Prop::Broadcast => Property::Broadcast,
        Prop::Netmask => Property::Netmask,
        Prop::Index => Property::Address6,
    }
}

/// The configuration step an access belongs to, as errors name it.
pub open spec fn property_of(a: Access) -> Property {
    match a {
        Access::Read(p) => prop_property(p),
        Access::Write(v) => prop_property(prop_of(v)),
        Access::Raise(_) => Property::Flags,
        Access::Address6 { .. } => Property::Address6,
        Access::Write6 { .. } => Property::Address6,
        Access::Owner { .. } => Property::Owner,
        Access::Group { .. } => Property::Group,
        Access::Persist { .. } => Property::Persist,
    }
}

/// The IPv4 address a value holds, for the four address properties.
pub open spec fn ipv4_of(v: Value) -> Option<[u8; 4]> {
    match v {
        Value::Address(a) => Some(a),
        Value::Destination(a) => Some(a),
        Value::Broadcast(a) => Some(a),
        Value::Netmask(a) => Some(a),
        _ => None,
    }
}

/// `d` is the payload that writes value `v`.
pub open spec fn carries(d: IfData, v: Value) -> bool {
    match v {
        Value::Mtu(m) => d == IfData::Mtu(m),
        Value::Flags(f) => d == IfData::Flags(f),
        Value::Index(i) => d == IfData::Index(i),
        _ => match d {
            IfData::Addr(s) => s.family == AF_INET && s.data@ == ipv4_payload(ipv4_of(v).unwrap()@),
            _ => false,
        },
    }
}

/// `v` is what the kernel's payload `d` says of property `p`; an address
/// is read from the address bytes of the record.
pub open spec fn decodes(p: Prop, d: IfData, v: Value) -> bool {
    match p {
        Prop::Mtu => d matches IfData::Mtu(m) && v == Value::Mtu(m),
        Prop::Flags => d matches IfData::Flags(f) && v == Value::Flags(f),
        Prop::Index => d matches IfData::Index(i) && v == Value::Index(i),
        _ => d matches IfData::Addr(s) && prop_of(v) == p && ipv4_of(v).unwrap()@ == s.data@.subrange(2, 6),
    }
}

/// The payload shape that property `p` is answered in.
pub open spec fn shaped(p: Prop, d: IfData) -> bool {
    match p {
        Prop::Mtu => d is Mtu,
        Prop::Flags => d is Flags,
        Prop::Index => d is Index,
        _ => d is Addr,
    }
}

/// The binding request that a descriptor is registered with.
pub open spec fn is_registration(r: ifreq, name: Seq<u8>, flags: i16, multi_queue: bool) -> bool {
    &&& r.name@ == name_field(name)
    &&& r.data == IfData::Flags(if multi_queue { flags | IFF_MULTI_QUEUE } else { flags })
}

/// Builds the binding request for interface `name`: its kind and
/// packet-information flags, plus the multi-queue flag when asked for.
pub fn registration_request(name: &str, flags: i16, multi_queue: bool) -> (r: ifreq)
    ensures
        is_registration(r, name.spec_bytes(), flags, multi_queue),
{
    let f = if multi_queue { flags | IFF_MULTI_QUEUE } else { flags };
    let base = ifreq::new(name);
    ifreq { name: base.name, data: IfData::Flags(f) }
}

fn prop_of_value(v: &Value) -> (r: Prop)
    ensures
        r == prop_of(*v),
{
    match v {
        Value::Mtu(_) => Prop::Mtu,
        Value::Flags(_) => Prop::Flags,
        Value::Address(_) => Prop::Address,
        Value::Destination(_) => Prop::Destination,
        Value::Broadcast(_) => Prop::Broadcast,
        Value::Netmask(_) => Prop::Netmask,
        Value::Index(_) => Prop::Index,
    }
}

fn payload(v: &Value) -> (r: IfData)
    ensures
        carries(r, *v),
{
    match v {
        Value::Mtu(m) => IfData::Mtu(*m),
        Value::Flags(f) => IfData::Flags(*f),
        Value::Address(a) => IfData::Addr(ipv4_to_address(*a)),
        Value::Destination(a) => IfData::Addr(ipv4_to_address(*a)),
        Value::Broadcast(a) => IfData::Addr(ipv4_to_address(*a)),
        Value::Netmask(a) => IfData::Addr(ipv4_to_address(*a)),
        Value::Index(i) => IfData::Index(*i),
    }
}

fn decode(p: Prop, d: &IfData) -> (r: Option<Value>)
    ensures
        r is Some <==> shaped(p, *d),
        r matches Some(v) ==> decodes(p, *d, v),
{
    match (p, d) {
        (Prop::Mtu, IfData::Mtu(m)) => Some(Value::Mtu(*m)),
        (Prop::Flags, IfData::Flags(f)) => Some(Value::Flags(*f)),
        (Prop::Address, IfData::Addr(s)) => Some(Value::Address(ipv4_from_address(*s))),
        (Prop::Destination, IfData::Addr(s)) => Some(Value::Destination(ipv4_from_address(*s))),
        (Prop::Broadcast, IfData::Addr(s)) => Some(Value::Broadcast(ipv4_from_address(*s))),
        (Prop::Netmask, IfData::Addr(s)) => Some(Value::Netmask(ipv4_from_address(*s))),
        (Prop::Index, IfData::Index(i)) => Some(Value::Index(*i)),
        _ => None,
    }
}

fn prop_property_of(p: Prop) -> (r: Property)
    ensures
        r == prop_property(p),
{
    match p {
        Prop::Mtu => Property::Mtu,
        Prop::Flags => Property::Flags,
        Prop::Address => Property::Address,
        Prop::Destination => Property::Destination,
        Prop::Broadcast => Property::Broadcast,
        Prop::Netmask => Property::Netmask,
        Prop::Index => Property::Address6,
    }
}

/// The configuration step that an access belongs to.
pub fn property(a: &Access) -> (r: Property)
    ensures
        r == property_of(*a),
{
    match a {
        Access::Read(p) => prop_property_of(*p),
        Access::Write(v) => prop_property_of(prop_of_value(v)),
        Access::Raise(_) => Property::Flags,
        Access::Address6 { .. } => Property::Address6,
        Access::Write6 { .. } => Property::Address6,
        Access::Owner { .. } => Property::Owner,
        Access::Group { .. } => Property::Group,
        Access::Persist { .. } => Property::Persist,
    }
}

impl Interface {
    pub closed spec fn spec_fds(self) -> Seq<i32> {
        self.fds@
    }

    pub closed spec fn spec_socket(self) -> i32 {
        self.socket
    }

    pub closed spec fn spec_name(self) -> Seq<char> {
        self.name@
    }

    /// The name field of every request about this interface.
    pub open spec fn req_name(self) -> Seq<u8> {
        name_field(vstd::utf8::encode_utf8(self.spec_name()))
    }

    /// `c` is the next control call of access `a`; `None` when nothing is
    /// left to issue.
    pub open spec fn is_call_for(self, a: Access, c: Option<ControlCall>) -> bool {
        let fds = self.spec_fds();
        match a {
            Access::Read(p) => c matches Some(ControlCall::Fetch { socket, prop, req })
                && socket == self.spec_socket() && prop == p && req.name@ == self.req_name()
                && req.data is Empty,
            Access::Write(v) => c matches Some(ControlCall::Store { socket, prop, req })
                && socket == self.spec_socket() && prop == prop_of(v) && req.name@ == self.req_name()
                && carries(req.data, v),
            Access::Raise(_) => c matches Some(ControlCall::Fetch { socket, prop, req })
                && socket == self.spec_socket() && prop == Prop::Flags && req.name@ == self.req_name()
                && req.data is Empty,
            Access::Address6 { .. } => c matches Some(ControlCall::Fetch { socket, prop, req })
                && socket == self.spec_socket() && prop == Prop::Index && req.name@ == self.req_name()
                && req.data is Empty,
            Access::Write6 { addr, prefix, index } => c == Some(
                ControlCall::Store6 { req: In6Req { addr, prefix, index } },
            ),
            Access::Owner { uid, next } => if next < fds.len() {
                c == Some(ControlCall::SetOwner { fd: fds[next as int], uid })
            } else {
                c is None
            },
            Access::Group { gid, next } => if next < fds.len() {
                c == Some(ControlCall::SetGroup { fd: fds[next as int], gid })
            } else {
                c is None
            },
            Access::Persist { next } => if next < fds.len() {
                c == Some(ControlCall::SetPersist { fd: fds[next as int] })
            } else {
                c is None
            },
        }
    }

    /// `n` is where access `a` stands once the kernel answered its call with
    /// payload `d`; `None` when the answer lacks the shape asked for.
    pub open spec fn answers(self, a: Access, d: IfData, n: Option<Next>) -> bool {
        let len = self.spec_fds().len();
        match a {
            Access::Read(p) => if shaped(p, d) {
                n matches Some(Next::Done(Answer::Value(v))) && decodes(p, d, v)
            } else {
                n is None
            },
            Access::Write(v) => n == Some(Next::Done(Answer::Value(v))),
            Access::Raise(add) => match d {
                IfData::Flags(cur) => n == Some(Next::Continue(Access::Write(Value::Flags(raised(cur, add))))),
                _ => n is None,
            },
            Access::Address6 { addr, prefix } => match d {
                IfData::Index(index) => n == Some(Next::Continue(Access::Write6 { addr, prefix, index })),
                _ => n is None,
            },
            Access::Write6 { .. } => n == Some(Next::Done(Answer::Applied)),
            Access::Owner { uid, next } => n == Some(
                if next + 1 < len {
                    Next::Continue(Access::Owner { uid, next: (next + 1) as usize })
                } else {
                    Next::Done(Answer::Applied)
                },
            ),
            Access::Group { gid, next } => n == Some(
                if next + 1 < len {
                    Next::Continue(Access::Group { gid, next: (next + 1) as usize })
                } else {
                    Next::Done(Answer::Applied)
                },
            ),
            Access::Persist { next } => n == Some(
                if next + 1 < len {
                    Next::Continue(Access::Persist { next: (next + 1) as usize })
                } else {
                    Next::Done(Answer::Applied)
                },
            ),
        }
    }

    /// The interface that descriptors `fds` were bound to, named as the
    /// kernel's answer to the binding call `bound` reports.
    pub fn new(fds: Vec<i32>, socket: i32, bound: &ifreq) -> (r: Result<Interface, Error>)
        ensures
            r is Ok <==> valid_utf8(field_text(bound.name@)),
            r matches Ok(i) ==> i.spec_fds() == fds@ && i.spec_socket() == socket
                && i.spec_name() == decode_utf8(field_text(bound.name@)),
            r matches Err(e) ==> e == Error::InvalidName,
    {
        match bound.name() {
            Some(name) => Ok(Interface { fds, socket, name }),
            None => Err(Error::InvalidName),
        }
    }

    /// The descriptors bound to this interface, one per queue.
    pub fn files(&self) -> (r: &[i32])
        ensures
            r@ == self.spec_fds(),
    {
        self.fds.as_slice()
    }

    pub fn name(&self) -> (r: &str)
        ensures
            r@ == self.spec_name(),
    {
        self.name.as_str()
    }

    /// The control socket through which properties are read and written.
    pub fn socket(&self) -> (r: i32)
        ensures
            r == self.spec_socket(),
    {
        self.socket
    }

    /// The access that reads the MTU, or writes it when `mtu` is given.
    pub fn mtu(&self, mtu: Option<i32>) -> (r: Access)
        ensures
            r == match mtu {
                Some(m) => Access::Write(Value::Mtu(m)),
                None => Access::Read(Prop::Mtu),
            },
    {
        match mtu {
            Some(m) => Access::Write(Value::Mtu(m)),
            None => Access::Read(Prop::Mtu),
        }
    }

    /// The access that reads the IPv4 address, or writes it when given.
    pub fn address(&self, address: Option<[u8; 4]>) -> (r: Access)
        ensures
            r == match address {
                Some(a) => Access::Write(Value::Address(a)),
                None => Access::Read(Prop::Address),
            },
    {
        match address {
            Some(a) => Access::Write(Value::Address(a)),
            None => Access::Read(Prop::Address),
        }
    }

    /// The access that reads the netmask, or writes it when given.
    pub fn netmask(&self, netmask: Option<[u8; 4]>) -> (r: Access)
        ensures
            r == match netmask {
                Some(a) => Access::Write(Value::Netmask(a)),
                None => Access::Read(Prop::Netmask),
            },
    {
        match netmask {
            Some(a) => Access::Write(Value::Netmask(a)),
            None => Access::Read(Prop::Netmask),
        }
    }

    /// The access that reads the destination address, or writes it when
    /// given.
    pub fn destination(&self, dst: Option<[u8; 4]>) -> (r: Access)
        ensures
            r == match dst {
                Some(a) => Access::Write(Value::Destination(a)),
                None => Access::Read(Prop::Destination),
            },
    {
        match dst {
            Some(a) => Access::Write(Value::Destination(a)),
            None => Access::Read(Prop::Destination),
        }
    }

    /// The access that reads the broadcast address, or writes it when
    /// given.
    pub fn broadcast(&self, broadcast: Option<[u8; 4]>) -> (r: Access)
        ensures
            r == match broadcast {
                Some(a) => Access::Write(Value::Broadcast(a)),
                None => Access::Read(Prop::Broadcast),
            },
    {
        match broadcast {
            Some(a) => Access::Write(Value::Broadcast(a)),
            None => Access::Read(Prop::Broadcast),
        }
    }

    /// The access that reads the flags, or raises the given bits (keeping
    /// every bit already set).
    pub fn flags(&self, flags: Option<i16>) -> (r: Access)
        ensures
            r == match flags {
                Some(f) => Access::Raise(f),
                None => Access::Read(Prop::Flags),
            },
    {
        match flags {
            Some(f) => Access::Raise(f),
            None => Access::Read(Prop::Flags),
        }
    }

    /// The access that sets the owning user on every descriptor.
    pub fn owner(&self, owner: i32) -> (r: Access)
        ensures
            r == (Access::Owner { uid: owner, next: 0 }),
    {
        Access::Owner { uid: owner, next: 0 }
    }

    /// The access that sets the owning group on every descriptor.
    pub fn group(&self, group: i32) -> (r: Access)
        ensures
            r == (Access::Group { gid: group, next: 0 }),
    {
        Access::Group { gid: group, next: 0 }
    }

    /// The access that makes the device persistent on every descriptor.
    pub fn persist(&self) -> (r: Access)
        ensures
            r == (Access::Persist { next: 0 }),
    {
        Access::Persist { next: 0 }
    }

    fn request_name(&self) -> (r: [u8; 16])
        ensures
            r@ == self.req_name(),
    {
        ifreq::new(self.name.as_str()).name
    }

    fn has_after(&self, next: usize) -> (b: bool)
        ensures
            b == (next + 1 < self.spec_fds().len()),
            b ==> next < usize::MAX,
    {
        self.fds.len() > 0 && next < self.fds.len() - 1
    }

    /// The next control call of access `a`.
    pub fn request(&self, a: &Access) -> (r: Option<ControlCall>)
        ensures
            self.is_call_for(*a, r),
    {
        match a {
            Access::Read(p) => Some(
                ControlCall::Fetch {
                    socket: self.socket,
                    prop: *p,
                    req: ifreq { name: self.request_name(), data: IfData::Empty },
                },
            ),
            Access::Write(v) => Some(
                ControlCall::Store {
                    socket: self.socket,
                    prop: prop_of_value(v),
                    req: ifreq { name: self.request_name(), data: payload(v) },
                },
            ),
            Access::Raise(_) => Some(
                ControlCall::Fetch {
                    socket: self.socket,
                    prop: Prop::Flags,
                    req: ifreq { name: self.request_name(), data: IfData::Empty },
                },
            ),
            Access::Address6 { .. } => Some(
                ControlCall::Fetch {
                    socket: self.socket,
                    prop: Prop::Index,
                    req: ifreq { name: self.request_name(), data: IfData::Empty },
                },
            ),
            Access::Write6 { addr, prefix, index } => Some(
                ControlCall::Store6 { req: In6Req { addr: *addr, prefix: *prefix, index: *index } },
            ),
            Access::Owner { uid, next } => if *next < self.fds.len() {
                Some(ControlCall::SetOwner { fd: self.fds[*next], uid: *uid })
            } else {
                None
            },
            Access::Group { gid, next } => if *next < self.fds.len() {
                Some(ControlCall::SetGroup { fd: self.fds[*next], gid: *gid })
            } else {
                None
            },
            Access::Persist { next } => if *next < self.fds.len() {
                Some(ControlCall::SetPersist { fd: self.fds[*next] })
            } else {
                None
            },
        }
    }

    /// Where access `a` stands once the kernel answered its call with
    /// payload `d` (`IfData::Empty` for descriptor calls).
    pub fn respond(&self, a: &Access, d: &IfData) -> (r: Option<Next>)
        ensures
            self.answers(*a, *d, r),
    {
        match a {
            Access::Read(p) => match decode(*p, d) {
                Some(v) => Some(Next::Done(Answer::Value(v))),
                None => None,
            },
            Access::Write(v) => Some(Next::Done(Answer::Value(*v))),
            Access::Raise(add) => match d {
                IfData::Flags(cur) => Some(Next::Continue(Access::Write(Value::Flags(*cur | *add)))),
                _ => None,
            },
            Access::Address6 { addr, prefix } => match d {
                IfData::Index(index) => Some(
                    Next::Continue(Access::Write6 { addr: *addr, prefix: *prefix, index: *index }),
                ),
                _ => None,
            },
            Access::Write6 { .. } => Some(Next::Done(Answer::Applied)),
            Access::Owner { uid, next } => Some(
                if self.has_after(*next) {
                    Next::Continue(Access::Owner { uid: *uid, next: *next + 1 })
                } else {
                    Next::Done(Answer::Applied)
                },
            ),
            Access::Group { gid, next } => Some(
                if self.has_after(*next) {
                    Next::Continue(Access::Group { gid: *gid, next: *next + 1 })
                } else {
                    Next::Done(Answer::Applied)
                },
            ),
            Access::Persist { next } => Some(
                if self.has_after(*next) {
                    Next::Continue(Access::Persist { next: *next + 1 })
                } else {
                    Next::Done(Answer::Applied)
                },
            ),
        }
    }
}

/// A property reads back as written: when the kernel answers a read of a
/// property with the record that a write of `v` carried, the read yields `v`.
pub proof fn lemma_read_back(iface: Interface, v: Value, d: IfData, n: Option<Next>)
    requires
        carries(d, v),
        iface.answers(Access::Read(prop_of(v)), d, n),
    ensures
        n == Some(Next::Done(Answer::Value(v))),
{
    broadcast use vstd::array::group_array_axioms;

    match n {
        Some(Next::Done(Answer::Value(w))) => {
            if let (Some(a), Some(b)) = (ipv4_of(v), ipv4_of(w)) {
                assert(a@ =~= b@);
                assert(a =~= b);
            }
        },
        _ => {},
    }
}

/// Raising flags keeps every bit that was set, sets the raised bits, and
/// raising the same bits again changes nothing.
pub proof fn lemma_raise_monotone_idempotent(current: i16, add: i16)
    ensures
        raised(current, add) & current == current,
        raised(current, add) & add == add,
        raised(raised(current, add), add) == raised(current, add),
{
    assert((current | add) & current == current) by (bit_vector);
    assert((current | add) & add == add) by (bit_vector);
    assert(((current | add) | add) == (current | add)) by (bit_vector);
}

} // verus!
