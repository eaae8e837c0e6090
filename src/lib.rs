//! Verified core of a TUN/TAP device library.
//!
//! The modules here hold the logic that decides what is sent to the kernel and
//! what its answers mean: address and name records, the configuration
//! sequence, and the readiness-driven I/O state machines. The system calls
//! themselves are made by the caller, which hands the outcomes back.

pub mod address;
pub mod lifecycle;
pub mod builder;
pub mod config;
pub mod error;
pub mod interface;
pub mod macaddr;
pub mod params;
pub mod queue;
pub mod request;
pub mod sendall;

pub use crate::request::{
    IfData, ifreq, In6Req, sockaddr, IFF_MULTI_QUEUE, IFF_NO_PI, IFF_RUNNING, IFF_TAP, IFF_TUN, IFF_UP,
    IFNAMSIZ,
};
pub use crate::address::{ipv4_from_address, ipv4_to_address, AF_INET, ARPHRD_ETHER};
pub use crate::macaddr::{MacAddr, MacAddrError};
pub use crate::error::{Error, Property};
pub use crate::params::{Params, MAX_PREFIX6};
pub use crate::builder::TunBuilder;
pub use crate::interface::{
    registration_request, Access, Answer, ControlCall, Interface, Next, Prop,
    Value,
};
pub use crate::config::{init_plan, Configurator};
pub use crate::queue::{classify, immediate, resume, Attempt, Resume, EAGAIN};
pub use crate::sendall::SendAll;
pub use crate::lifecycle::{Build, BuildAction, BuildFailure};
