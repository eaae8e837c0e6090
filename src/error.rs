use vstd::prelude::*;

verus! {

/// The configuration step that a control call belonged to.
#[derive(Clone, Copy, Debug, PartialEq, Eq, Structural)]
pub enum Property {
    Mtu,
    Owner,
    Group,
    Address,
    Address6,
    Netmask,
    Destination,
    Broadcast,
    Persist,
    Flags,
}

/// What can go wrong while allocating, configuring or using a device.
/// Operating-system failures carry their error number.
#[derive(Clone, Copy, Debug, PartialEq, Eq, Structural)]
pub enum Error {
    /// Opening the device node failed.
    Allocation(i32),
    /// Binding a descriptor to the interface failed.
    Registration(i32),
    /// A property control call failed.
    Configuration(Property, i32),
    /// The kernel's answer to a control call did not have the shape asked for.
    Reply(Property),
    /// An IPv6 prefix length above 128.
    InvalidPrefix(u8),
    /// The interface name that the kernel reported is not UTF-8.
    InvalidName,
    /// A read or write on a queue failed.
    Io(i32),
    /// The queue is not ready; the operation would block.
    NotReady,
    /// A write accepted zero bytes while data remained.
    WriteZero,
}

} // verus!
