use vstd::prelude::*;
use crate::error::Error;
use crate::interface::{
    property, property_of, Access, Answer, ControlCall, Interface, Next, Prop, Value,
};
use crate::params::Params;
use crate::request::{IfData, IFF_RUNNING, IFF_UP};

verus! {

/// The bits raised to bring an interface up.
pub open spec fn up_bits() -> i16 {
    IFF_UP | IFF_RUNNING
}

pub open spec fn opt_seq(o: Option<Access>) -> Seq<Access> {
    match o {
        Some(a) => seq![a],
        None => Seq::empty(),
    }
}

pub open spec fn mtu_step(o: Option<i32>) -> Option<Access> {
    match o {
        Some(m) => Some(Access::Write(Value::Mtu(m))),
        None => None,
    }
}

pub open spec fn owner_step(o: Option<i32>) -> Option<Access> {
    match o {
        Some(u) => Some(Access::Owner { uid: u, next: 0 }),
        None => None,
    }
}

pub open spec fn group_step(o: Option<i32>) -> Option<Access> {
    match o {
        Some(g) => Some(Access::Group { gid: g, next: 0 }),
        None => None,
    }
}

/// The write of an address-valued property `p`.
pub open spec fn addr_value(p: Prop, a: [u8; 4]) -> Value {
    match p {
        Prop::Netmask => Value::Netmask(a),
        Prop::Destination => Value::Destination(a),
        Prop::Broadcast => Value::Broadcast(a),
        _ => Value::Address(a),
    }
}

pub open spec fn addr_step(o: Option<[u8; 4]>, p: Prop) -> Option<Access> {
    match o {
        Some(a) => Some(Access::Write(addr_value(p, a))),
        None => None,
    }
}

pub open spec fn addr6_step(o: Option<([u8; 16], u8)>) -> Option<Access> {
    match o {
        Some((a, n)) => Some(Access::Address6 { addr: a, prefix: n as u32 }),
        None => None,
    }
}

pub open spec fn flag_step(on: bool, a: Access) -> Option<Access> {
    if on {
        Some(a)
    } else {
        None
    }
}

/// The accesses that configure an interface as `p` describes, in the fixed
/// order mtu, owner, group, address (IPv4, then IPv6), netmask,
/// destination, broadcast, persist, up. A field left out is skipped.
pub open spec fn plan_of(p: Params) -> Seq<Access> {
    opt_seq(mtu_step(p.mtu)) + opt_seq(owner_step(p.owner)) + opt_seq(group_step(p.group))
        + opt_seq(addr_step(p.address, Prop::Address)) + opt_seq(addr6_step(p.address6)) + opt_seq(
        addr_step(p.netmask, Prop::Netmask),
    )
        + opt_seq(addr_step(p.destination, Prop::Destination)) + opt_seq(
        addr_step(p.broadcast, Prop::Broadcast),
    ) + opt_seq(flag_step(p.persist, Access::Persist { next: 0 })) + opt_seq(
        flag_step(p.up, Access::Raise(up_bits())),
    )
}

fn push_step(r: &mut Vec<Access>, o: Option<Access>)
    ensures
        final(r)@ == old(r)@ + opt_seq(o),
{
    if let Some(a) = o {
        r.push(a);
    }
    assert(final(r)@ =~= old(r)@ + opt_seq(o));
}

fn step_mtu(o: Option<i32>) -> (r: Option<Access>)
    ensures
        r == mtu_step(o),
{
    match o {
        Some(m) => Some(Access::Write(Value::Mtu(m))),
        None => None,
    }
}

fn step_owner(o: Option<i32>) -> (r: Option<Access>)
    ensures
        r == owner_step(o),
{
    match o {
        Some(u) => Some(Access::Owner { uid: u, next: 0 }),
        None => None,
    }
}

fn step_group(o: Option<i32>) -> (r: Option<Access>)
    ensures
        r == group_step(o),
{
    match o {
        Some(g) => Some(Access::Group { gid: g, next: 0 }),
        None => None,
    }
}

fn step_addr(o: Option<[u8; 4]>, p: Prop) -> (r: Option<Access>)
    ensures
        r == addr_step(o, p),
{
    match o {
        Some(a) => Some(
            Access::Write(
                match p {
                    Prop::Netmask => Value::Netmask(a),
                    Prop::Destination => Value::Destination(a),
                    Prop::Broadcast => Value::Broadcast(a),
                    _ => Value::Address(a),
                },
            ),
        ),
        None => None,
    }
}

fn step_addr6(o: Option<([u8; 16], u8)>) -> (r: Option<Access>)
    ensures
        r == addr6_step(o),
{
    match o {
        Some((a, n)) => Some(Access::Address6 { addr: a, prefix: n as u32 }),
        None => None,
    }
}

fn step_flag(on: bool, a: Access) -> (r: Option<Access>)
    ensures
        r == flag_step(on, a),
{
    if on {
        Some(a)
    } else {
        None
    }
}

/// The configuration sequence for `p`.
pub fn init_plan(p: &Params) -> (r: Vec<Access>)
    ensures
        r@ == plan_of(*p),
{
    let mut r: Vec<Access> = Vec::new();
    push_step(&mut r, step_mtu(p.mtu));
    push_step(&mut r, step_owner(p.owner));
    push_step(&mut r, step_group(p.group));
    push_step(&mut r, step_addr(p.address, Prop::Address));
    push_step(&mut r, step_addr6(p.address6));
    push_step(&mut r, step_addr(p.netmask, Prop::Netmask));
    push_step(&mut r, step_addr(p.destination, Prop::Destination));
    push_step(&mut r, step_addr(p.broadcast, Prop::Broadcast));
    push_step(&mut r, step_flag(p.persist, Access::Persist { next: 0 }));
    push_step(&mut r, step_flag(p.up, Access::Raise(IFF_UP | IFF_RUNNING)));
    assert(r@ =~= plan_of(*p));
    r
}

/// A fully specified configuration writes every property it names, each
/// once, in the fixed order, and then brings the interface up.
pub proof fn lemma_full_plan(p: Params)
    requires
        p.mtu is Some,
        p.owner is Some,
        p.group is Some,
        p.address is Some,
        p.address6 is Some,
        p.netmask is Some,
        p.destination is Some,
        p.broadcast is Some,
        p.persist,
        p.up,
    ensures
        plan_of(p) == seq![
            Access::Write(Value::Mtu(p.mtu.unwrap())),
            Access::Owner { uid: p.owner.unwrap(), next: 0 },
            Access::Group { gid: p.group.unwrap(), next: 0 },
            Access::Write(Value::Address(p.address.unwrap())),
            Access::Address6 { addr: p.address6.unwrap().0, prefix: p.address6.unwrap().1 as u32 },
            Access::Write(Value::Netmask(p.netmask.unwrap())),
            Access::Write(Value::Destination(p.destination.unwrap())),
            Access::Write(Value::Broadcast(p.broadcast.unwrap())),
            Access::Persist { next: 0 },
            Access::Raise(up_bits()),
        ],
{
    assert(plan_of(p) =~= seq![
        Access::Write(Value::Mtu(p.mtu.unwrap())),
        Access::Owner { uid: p.owner.unwrap(), next: 0 },
        Access::Group { gid: p.group.unwrap(), next: 0 },
        Access::Write(Value::Address(p.address.unwrap())),
        Access::Address6 { addr: p.address6.unwrap().0, prefix: p.address6.unwrap().1 as u32 },
        Access::Write(Value::Netmask(p.netmask.unwrap())),
        Access::Write(Value::Destination(p.destination.unwrap())),
        Access::Write(Value::Broadcast(p.broadcast.unwrap())),
        Access::Persist { next: 0 },
        Access::Raise(up_bits()),
    ]);
}

/// Runs a sequence of accesses against one interface, one control call at a
/// time: the caller issues each call and hands back the kernel's outcome.
/// The first failure ends the run; what was applied before it stays applied.
pub struct Configurator {
    plan: Vec<Access>,
    pos: usize,
    current: Access,
    failed: Option<Error>,
    answer: Option<Answer>,
}

impl Configurator {
    pub closed spec fn spec_plan(self) -> Seq<Access> {
        self.plan@
    }

    /// Index of the access under way; the plan's length once all are done.
    pub closed spec fn spec_pos(self) -> nat {
        self.pos as nat
    }

    /// The access under way, at the stage it has reached.
    pub closed spec fn spec_current(self) -> Access {
        self.current
    }

    pub closed spec fn spec_failed(self) -> Option<Error> {
        self.failed
    }

    /// What the last finished access yielded.
    pub closed spec fn spec_answer(self) -> Option<Answer> {
        self.answer
    }

    pub open spec fn wf(self) -> bool {
        self.spec_pos() <= self.spec_plan().len()
    }

    /// The run is over: it failed or every access finished.
    pub open spec fn is_over(self) -> bool {
        self.spec_failed() is Some || self.spec_pos() >= self.spec_plan().len()
    }

    /// How `next_call` moves the run from `self` to `next` when it returns
    /// `r`: the plan and failure stay; a failed run issues nothing; otherwise
    /// `r` is the next call of the access under way, and the accesses passed
    /// over on the way issue none.
    pub open spec fn advanced(self, next: Configurator, iface: Interface, r: Option<ControlCall>) -> bool {
        &&& next.spec_plan() == self.spec_plan()
        &&& next.spec_failed() == self.spec_failed()
        &&& self.spec_failed() is Some ==> r is None && next == self
        &&& self.spec_failed() is None ==> {
                &&& next.spec_pos() >= self.spec_pos()
                &&& r is None <==> next.is_over()
                &&& r is Some ==> iface.is_call_for(next.spec_current(), r)
                &&& next.spec_pos() == self.spec_pos() ==> next.spec_current() == self.spec_current()
                &&& next.spec_pos() > self.spec_pos() ==> {
                    &&& self.spec_pos() < self.spec_plan().len()
                    &&& iface.is_call_for(self.spec_current(), None)
                    &&& forall|k: int|
                        self.spec_pos() < k < next.spec_pos() ==> iface.is_call_for(
                            #[trigger] self.spec_plan()[k],
                            None,
                        )
                    &&& next.spec_pos() < next.spec_plan().len() ==> next.spec_current()
                        == next.spec_plan()[next.spec_pos() as int]
                }
            }
    }

    /// How `on_reply` moves the run from `self` to `next` on the kernel's
    /// `outcome`: a run that is over ignores it; an error ends the run with
    /// a configuration error naming the step; otherwise the access under
    /// way takes the answer and either goes on, finishes (the run moving to
    /// the next access), or fails on an answer of the wrong shape.
    pub open spec fn replied(self, next: Configurator, iface: Interface, outcome: Result<IfData, i32>) -> bool {
        &&& next.spec_plan() == self.spec_plan()
        &&& self.is_over() ==> next == self
        &&& !self.is_over() ==> match outcome {
                Err(e) => {
                    &&& next.spec_failed() == Some(Error::Configuration(property_of(self.spec_current()), e))
                    &&& next.spec_pos() == self.spec_pos()
                },
                Ok(d) => exists|n: Option<Next>|
                    {
                        &&& #[trigger] iface.answers(self.spec_current(), d, n)
                        &&& match n {
                            None => next.spec_failed() == Some(
                                Error::Reply(property_of(self.spec_current())),
                            ) && next.spec_pos() == self.spec_pos(),
                            Some(Next::Continue(a)) => next.spec_failed() is None
                                && next.spec_pos() == self.spec_pos()
                                && next.spec_current() == a,
                            Some(Next::Done(ans)) => next.spec_failed() is None
                                && next.spec_pos() == self.spec_pos() + 1
                                && next.spec_answer() == Some(ans)
                                && (next.spec_pos() < next.spec_plan().len()
                                ==> next.spec_current() == next.spec_plan()[next.spec_pos() as int]),
                        }
                    },
            }
    }

    /// A run of `plan`, about to start its first access.
    pub fn new(plan: Vec<Access>) -> (r: Configurator)
        ensures
            r.wf(),
            r.spec_plan() == plan@,
            r.spec_pos() == 0,
            plan@.len() > 0 ==> r.spec_current() == plan@[0],
            r.spec_failed() is None,
            r.spec_answer() is None,
    {
        let current = if plan.len() > 0 { plan[0] } else { Access::Persist { next: 0 } };
        Configurator { plan, pos: 0, current, failed: None, answer: None }
    }

    /// The next control call to issue, or `None` once the run is over.
    /// Accesses that need no call (a per-descriptor step on an interface
    /// without descriptors) are passed over.
    pub fn next_call(&mut self, iface: &Interface) -> (r: Option<ControlCall>)
        requires
            old(self).wf(),
        ensures
            final(self).wf(),
            old(self).advanced(*final(self), *iface, r),
    {
        if self.failed.is_some() {
            return None;
        }
        let ghost start = self.pos;
        let ghost first = self.current;
        while self.pos < self.plan.len()
            invariant
                self.pos <= self.plan@.len(),
                start <= self.pos,
                self.failed is None,
                old(self).failed is None,
                self.plan@ == old(self).plan@,
                start == old(self).pos,
                first == old(self).current,
                self.answer == old(self).answer,
                self.pos == start ==> self.current == first,
                self.pos > start ==> {
                    &&& start < self.plan@.len()
                    &&& iface.is_call_for(first, None)
                    &&& forall|k: int| start < k < self.pos ==> iface.is_call_for(#[trigger] self.plan@[k], None)
                    &&& self.pos < self.plan@.len() ==> self.current == self.plan@[self.pos as int]
                },
            decreases self.plan@.len() - self.pos,
        {
            match iface.request(&self.current) {
                Some(c) => {
                    return Some(c);
                },
                None => {
                    self.pos = self.pos + 1;
                    if self.pos < self.plan.len() {
                        self.current = self.plan[self.pos];
                    }
                },
            }
        }
        None
    }

    /// Takes the kernel's outcome of the call that `next_call` returned:
    /// the payload it answered with, or the error number it failed with.
    pub fn on_reply(&mut self, iface: &Interface, outcome: Result<IfData, i32>)
        requires
            old(self).wf(),
        ensures
            final(self).wf(),
            old(self).replied(*final(self), *iface, outcome),
    {
        if self.failed.is_some() || self.pos >= self.plan.len() {
            return;
        }
        match outcome {
            Err(e) => {
                self.failed = Some(Error::Configuration(property(&self.current), e));
            },
            Ok(d) => {
                let n = iface.respond(&self.current, &d);
                match n {
                    None => {
                        self.failed = Some(Error::Reply(property(&self.current)));
                    },
                    Some(Next::Continue(a)) => {
                        self.current = a;
                    },
                    Some(Next::Done(ans)) => {
                        self.answer = Some(ans);
                        self.pos = self.pos + 1;
                        if self.pos < self.plan.len() {
                            self.current = self.plan[self.pos];
                        }
                    },
                }
                assert(iface.answers(old(self).current, d, n));
            },
        }
    }

    /// How the run ended: `None` while it goes on, the first failure, or
    /// success once every access finished.
    pub fn outcome(&self) -> (r: Option<Result<(), Error>>)
        ensures
            match self.spec_failed() {
                Some(e) => r == Some(Err::<(), Error>(e)),
                None => if self.spec_pos() >= self.spec_plan().len() {
                    r == Some(Ok::<(), Error>(()))
                } else {
                    r is None
                },
            },
    {
        match self.failed {
            Some(e) => Some(Err(e)),
            None => if self.pos >= self.plan.len() {
                Some(Ok(()))
            } else {
                None
            },
        }
    }

    /// What the last finished access yielded.
    pub fn answer(&self) -> (r: Option<Answer>)
        ensures
            r == self.spec_answer(),
    {
        self.answer
    }
}

impl Interface {
    /// The run that configures this interface as `p` describes.
    pub fn init(&self, p: &Params) -> (r: Configurator)
        ensures
            r.wf(),
            r.spec_plan() == plan_of(*p),
            r.spec_pos() == 0,
            plan_of(*p).len() > 0 ==> r.spec_current() == plan_of(*p)[0],
            r.spec_failed() is None,
            r.spec_answer() is None,
    {
        Configurator::new(init_plan(p))
    }
}

} // verus!
