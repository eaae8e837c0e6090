use vstd::prelude::*;
use crate::config::{init_plan, plan_of, Configurator};
use crate::error::Error;
use crate::interface::{is_registration, registration_request, Access, ControlCall, Interface};
use crate::params::{params_valid, Params};
use crate::request::{field_text, ifreq, IfData};
use vstd::utf8::{decode_utf8, encode_utf8, valid_utf8};

verus! {

/// The next thing a build asks its caller to do.
#[derive(Clone, Copy, Debug, PartialEq, Eq)]
pub enum BuildAction {
    /// Open the device node, non-blocking (and close-on-exec when asked);
    /// answer with `on_open`.
    OpenDevice { cloexec: bool },
    /// Bind a descriptor with this request; answer with `on_bound`.
    Bind { fd: i32, req: ifreq },
    /// Open the IPv4 datagram socket used for property calls; answer with
    /// `on_socket`.
    OpenSocket,
    /// Issue this configuration call; answer with `on_reply`.
    Configure(ControlCall),
    /// The build is over; collect it with `finish`.
    Finished,
}

/// A build that failed: the error, and the descriptors and socket it had
/// opened, which the caller closes.
#[derive(Debug)]
pub struct BuildFailure {
    pub error: Error,
    pub fds: Vec<i32>,
    pub socket: Option<i32>,
}

/// Creates one interface with a number of queues: opens the device node once
/// per queue, binds every descriptor to the same interface, opens the
/// control socket, then applies the configuration. The caller performs each
/// step and hands back its outcome. The first failure ends the build; every
/// descriptor and socket opened by then is handed back to be closed.
pub struct Build {
    cloexec: bool,
    queues: usize,
    req: ifreq,
    opened: Vec<i32>,
    next_bind: usize,
    bound: ifreq,
    socket: Option<i32>,
    iface: Option<Interface>,
    config: Configurator,
    failed: Option<Error>,
}

fn copy_fds(v: &Vec<i32>) -> (r: Vec<i32>)
    ensures
        r@ == v@,
{
    let mut r: Vec<i32> = Vec::new();
    let mut i: usize = 0;
    while i < v.len()
        invariant
            i <= v@.len(),
            r@ == v@.subrange(0, i as int),
        decreases v@.len() - i,
    {
        r.push(v[i]);
        i = i + 1;
    }
    assert(r@ =~= v@);
    r
}

impl Build {
    pub closed spec fn spec_queues(self) -> nat {
        self.queues as nat
    }

    pub closed spec fn spec_cloexec(self) -> bool {
        self.cloexec
    }

    /// The binding request every descriptor is bound with.
    pub closed spec fn spec_req(self) -> ifreq {
        self.req
    }

    /// The descriptors opened so far, in order.
    pub closed spec fn spec_opened(self) -> Seq<i32> {
        self.opened@
    }

    /// How many descriptors are bound.
    pub closed spec fn spec_bound_count(self) -> nat {
        self.next_bind as nat
    }

    /// The kernel's answer to the last binding call (the request itself
    /// while none was made).
    pub closed spec fn spec_bound(self) -> ifreq {
        self.bound
    }

    pub closed spec fn spec_socket(self) -> Option<i32> {
        self.socket
    }

    pub closed spec fn spec_iface(self) -> Option<Interface> {
        self.iface
    }

    pub closed spec fn spec_config(self) -> Configurator {
        self.config
    }

    pub closed spec fn spec_failed(self) -> Option<Error> {
        self.failed
    }

    pub open spec fn wf(self) -> bool {
        &&& self.spec_opened().len() <= self.spec_queues()
        &&& self.spec_bound_count() <= self.spec_opened().len()
        &&& self.spec_socket() is Some ==> self.spec_bound_count() == self.spec_queues()
        &&& self.spec_iface() is Some ==> self.spec_socket() is Some
        &&& self.spec_failed() is None && self.spec_socket() is Some ==> self.spec_iface() is Some
        &&& self.spec_iface() matches Some(i) ==> i.spec_fds() == self.spec_opened() && Some(
            i.spec_socket(),
        ) == self.spec_socket()
        &&& self.spec_config().wf()
    }

    /// `self` and `o` agree on everything but the descriptors opened, the
    /// binding progress, and the failure.
    pub open spec fn same_setup(self, o: Build) -> bool {
        self.same_setup_but_config(o) && self.spec_config() == o.spec_config()
    }

    /// `self` and `o` agree on the whole setup but the configuration run.
    pub open spec fn same_setup_but_config(self, o: Build) -> bool {
        &&& self.spec_queues() == o.spec_queues()
        &&& self.spec_cloexec() == o.spec_cloexec()
        &&& self.spec_req() == o.spec_req()
        &&& self.spec_socket() == o.spec_socket()
        &&& self.spec_iface() == o.spec_iface()
    }

    /// Waiting for a descriptor to be opened.
    pub open spec fn opening(self) -> bool {
        self.spec_failed() is None && self.spec_opened().len() < self.spec_queues()
    }

    /// Waiting for a descriptor to be bound.
    pub open spec fn binding(self) -> bool {
        &&& self.spec_failed() is None
        &&& self.spec_opened().len() == self.spec_queues()
        &&& self.spec_bound_count() < self.spec_queues()
    }

    /// Waiting for the control socket.
    pub open spec fn socketing(self) -> bool {
        &&& self.spec_failed() is None
        &&& self.spec_opened().len() == self.spec_queues()
        &&& self.spec_bound_count() == self.spec_queues()
        &&& self.spec_socket() is None
    }

    /// Applying the configuration.
    pub open spec fn configuring(self) -> bool {
        self.spec_failed() is None && self.spec_iface() is Some
    }

    /// A build of `queues` queues of the device that `p` describes, in
    /// multi-queue mode when asked. Parameters that describe no possible
    /// device fail it at once.
    pub fn new(p: &Params, queues: usize, multi_queue: bool) -> (r: Build)
        ensures
            r.wf(),
            r.spec_queues() == queues,
            r.spec_cloexec() == p.cloexec,
            is_registration(
                r.spec_req(),
                match p.name {
                    Some(n) => encode_utf8(n@),
                    None => Seq::empty(),
                },
                p.flags,
                multi_queue,
            ),
            r.spec_opened().len() == 0,
            r.spec_bound_count() == 0,
            r.spec_bound() == r.spec_req(),
            r.spec_socket() is None,
            r.spec_iface() is None,
            r.spec_config().spec_plan() == plan_of(*p),
            r.spec_config().spec_pos() == 0,
            r.spec_config().spec_failed() is None,
            plan_of(*p).len() > 0 ==> r.spec_config().spec_current() == plan_of(*p)[0],
            params_valid(*p) <==> r.spec_failed() is None,
            !params_valid(*p) ==> (p.address6 matches Some((_, n)) && r.spec_failed() == Some(
                Error::InvalidPrefix(n),
            )),
    {
        let req = match &p.name {
            Some(n) => registration_request(n.as_str(), p.flags, multi_queue),
            None => registration_request("", p.flags, multi_queue),
        };
        proof {
            reveal_strlit("");
        }
        let failed = match p.check() {
            Ok(()) => None,
            Err(e) => Some(e),
        };
        Build {
            cloexec: p.cloexec,
            queues,
            req,
            opened: Vec::new(),
            next_bind: 0,
            bound: req,
            socket: None,
            iface: None,
            config: Configurator::new(init_plan(p)),
            failed,
        }
    }

    /// What the caller does next.
    pub fn next_action(&mut self) -> (r: BuildAction)
        requires
            old(self).wf(),
        ensures
            final(self).wf(),
            final(self).spec_opened() == old(self).spec_opened(),
            final(self).spec_socket() == old(self).spec_socket(),
            final(self).spec_iface() == old(self).spec_iface(),
            old(self).spec_failed() is Some ==> r == BuildAction::Finished && *final(self) == *old(self),
            old(self).opening() ==> r == (BuildAction::OpenDevice { cloexec: old(self).spec_cloexec() })
                && *final(self) == *old(self),
            old(self).binding() ==> r == (BuildAction::Bind {
                fd: old(self).spec_opened()[old(self).spec_bound_count() as int],
                req: old(self).spec_req(),
            }) && *final(self) == *old(self),
            old(self).socketing() ==> r == BuildAction::OpenSocket && *final(self) == *old(self),
            old(self).configuring() ==> {
                let call = match r {
                    BuildAction::Configure(c) => Some(c),
                    _ => None,
                };
                &&& old(self).spec_config().advanced(
                    final(self).spec_config(),
                    old(self).spec_iface().unwrap(),
                    call,
                )
                &&& r is Configure || r == BuildAction::Finished
                &&& r is Configure ==> final(self).spec_failed() is None
                &&& r == BuildAction::Finished ==> final(self).spec_failed()
                    == final(self).spec_config().spec_failed()
            },
    {
        if self.failed.is_some() {
            return BuildAction::Finished;
        }
        if self.opened.len() < self.queues {
            return BuildAction::OpenDevice { cloexec: self.cloexec };
        }
        if self.next_bind < self.queues {
            return BuildAction::Bind { fd: self.opened[self.next_bind], req: self.req };
        }
        match &self.iface {
            None => BuildAction::OpenSocket,
            Some(iface) => match self.config.next_call(iface) {
                Some(c) => BuildAction::Configure(c),
                None => {
                    self.failed = match self.config.outcome() {
                        Some(Err(e)) => Some(e),
                        _ => None,
                    };
                    BuildAction::Finished
                },
            },
        }
    }

    /// Takes the outcome of opening the device node: a descriptor, or the
    /// error number.
    pub fn on_open(&mut self, r: Result<i32, i32>)
        requires
            old(self).wf(),
        ensures
            final(self).wf(),
            !old(self).opening() ==> *final(self) == *old(self),
            old(self).opening() ==> match r {
                Ok(fd) => {
                    &&& final(self).same_setup(*old(self))
                    &&& final(self).spec_opened() == old(self).spec_opened().push(fd)
                    &&& final(self).spec_bound_count() == old(self).spec_bound_count()
                    &&& final(self).spec_bound() == old(self).spec_bound()
                    &&& final(self).spec_failed() is None
                },
                Err(e) => {
                    &&& final(self).same_setup(*old(self))
                    &&& final(self).spec_opened() == old(self).spec_opened()
                    &&& final(self).spec_bound_count() == old(self).spec_bound_count()
                    &&& final(self).spec_failed() == Some(Error::Allocation(e))
                },
            },
    {
        if self.failed.is_some() || self.opened.len() >= self.queues {
            return;
        }
        match r {
            Ok(fd) => self.opened.push(fd),
            Err(e) => self.failed = Some(Error::Allocation(e)),
        }
    }

    /// Takes the outcome of a binding call: the request as the kernel
    /// applied it (with the interface name filled in), or the error number.
    pub fn on_bound(&mut self, r: Result<ifreq, i32>)
        requires
            old(self).wf(),
        ensures
            final(self).wf(),
            !old(self).binding() ==> *final(self) == *old(self),
            old(self).binding() ==> match r {
                Ok(answer) => {
                    &&& final(self).same_setup(*old(self))
                    &&& final(self).spec_opened() == old(self).spec_opened()
                    &&& final(self).spec_bound_count() == old(self).spec_bound_count() + 1
                    &&& final(self).spec_bound() == answer
                    &&& final(self).spec_failed() is None
                },
                Err(e) => {
                    &&& final(self).same_setup(*old(self))
                    &&& final(self).spec_opened() == old(self).spec_opened()
                    &&& final(self).spec_bound_count() == old(self).spec_bound_count()
                    &&& final(self).spec_failed() == Some(Error::Registration(e))
                },
            },
    {
        if self.failed.is_some() || self.opened.len() != self.queues || self.next_bind >= self.queues {
            return;
        }
        match r {
            Ok(answer) => {
                self.next_bind = self.next_bind + 1;
                self.bound = answer;
            },
            Err(e) => self.failed = Some(Error::Registration(e)),
        }
    }

    /// Takes the outcome of opening the control socket. The interface is
    /// then named after the kernel's last answer to a binding call.
    pub fn on_socket(&mut self, r: Result<i32, i32>)
        requires
            old(self).wf(),
        ensures
            final(self).wf(),
            !old(self).socketing() ==> *final(self) == *old(self),
            old(self).socketing() ==> match r {
                Err(e) => {
                    &&& final(self).same_setup(*old(self))
                    &&& final(self).spec_opened() == old(self).spec_opened()
                    &&& final(self).spec_failed() == Some(Error::Io(e))
                },
                Ok(s) => {
                    let b = field_text(old(self).spec_bound().name@);
                    let f = *final(self);
                    &&& f.spec_socket() == Some(s)
                    &&& f.spec_opened() == old(self).spec_opened()
                    &&& f.spec_config() == old(self).spec_config()
                    &&& valid_utf8(b) ==> f.spec_failed() is None
                    &&& valid_utf8(b) ==> (f.spec_iface() matches Some(i) && i.spec_name() == decode_utf8(b))
                    &&& !valid_utf8(b) ==> f.spec_failed() == Some(Error::InvalidName)
                        && f.spec_iface() is None
                },
            },
    {
        if self.failed.is_some() || self.opened.len() != self.queues || self.next_bind != self.queues
            || self.socket.is_some() {
            return;
        }
        match r {
            Err(e) => self.failed = Some(Error::Io(e)),
            Ok(s) => {
                self.socket = Some(s);
                match Interface::new(copy_fds(&self.opened), s, &self.bound) {
                    Ok(i) => self.iface = Some(i),
                    Err(e) => self.failed = Some(e),
                }
            },
        }
    }

    /// Takes the outcome of a configuration call.
    pub fn on_reply(&mut self, r: Result<IfData, i32>)
        requires
            old(self).wf(),
        ensures
            final(self).wf(),
            !old(self).configuring() ==> *final(self) == *old(self),
            old(self).configuring() ==> {
                &&& final(self).same_setup_but_config(*old(self))
                &&& final(self).spec_opened() == old(self).spec_opened()
                &&& final(self).spec_bound_count() == old(self).spec_bound_count()
                &&& final(self).spec_failed() is None
                &&& old(self).spec_config().replied(
                    final(self).spec_config(),
                    old(self).spec_iface().unwrap(),
                    r,
                )
            },
    {
        if self.failed.is_some() {
            return;
        }
        match &self.iface {
            Some(iface) => self.config.on_reply(iface, r),
            None => {},
        }
    }

    /// Whether the build is over: failed, or configured in full.
    pub fn is_finished(&self) -> (r: bool)
        requires
            self.wf(),
        ensures
            r == (self.spec_failed() is Some || (self.spec_iface() is Some && self.spec_config().is_over()
                && self.spec_config().spec_failed() is None)),
    {
        if self.failed.is_some() {
            return true;
        }
        if self.iface.is_none() {
            return false;
        }
        match self.config.outcome() {
            Some(Ok(())) => true,
            _ => false,
        }
    }

    /// The configured interface once every step succeeded; otherwise the
    /// failure, with everything that was opened.
    pub fn finish(self) -> (r: Result<Interface, BuildFailure>)
        requires
            self.wf(),
            self.spec_failed() is Some || (self.spec_iface() is Some && self.spec_config().is_over()
                && self.spec_config().spec_failed() is None),
        ensures
            match self.spec_failed() {
                Some(e) => r matches Err(f) && f.error == e && f.fds@ == self.spec_opened()
                    && f.socket == self.spec_socket(),
                None => r matches Ok(i) && Some(i) == self.spec_iface(),
            },
    {
        match self.failed {
            Some(error) => Err(BuildFailure { error, fds: self.opened, socket: self.socket }),
            None => match self.iface {
                Some(i) => Ok(i),
                None => Err(
                    BuildFailure { error: Error::InvalidName, fds: self.opened, socket: self.socket },
                ),
            },
        }
    }
}

/// The queues of a build share one interface: once the control socket is
/// open, every one of the `n` descriptors opened has been bound (each with
/// the build's single request), and the interface holds exactly those `n`
/// descriptors, in order, under the one name the kernel reported.
pub proof fn lemma_build_shares_interface(b: Build)
    requires
        b.wf(),
        b.spec_iface() is Some,
    ensures
        b.spec_bound_count() == b.spec_queues(),
        b.spec_opened().len() == b.spec_queues(),
        b.spec_iface().unwrap().spec_fds() == b.spec_opened(),
{
}

} // verus!
