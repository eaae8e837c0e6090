use tokio_tun::{
    init_plan, ipv4_to_address, Access, Answer, Configurator, ControlCall, Error, IfData, ifreq, In6Req,
    Interface, Next, Params, Prop, Property, TunBuilder, Value, IFF_NO_PI, IFF_RUNNING, IFF_TUN,
    IFF_UP,
};

fn interface(fds: Vec<i32>, name: &str) -> Interface {
    Interface::new(fds, 3, &ifreq::new(name)).unwrap()
}

/// Drives a configuration run against a stand-in kernel; returns the calls
/// issued and how the run ended.
fn run(
    iface: &Interface,
    plan: Vec<Access>,
    mut kernel: impl FnMut(&ControlCall) -> Result<IfData, i32>,
) -> (Vec<ControlCall>, Result<(), Error>, Option<Answer>) {
    let mut c = Configurator::new(plan);
    let mut calls = Vec::new();
    while let Some(call) = c.next_call(iface) {
        calls.push(call);
        let out = kernel(&call);
        c.on_reply(iface, out);
        assert!(calls.len() < 100);
    }
    (calls, c.outcome().unwrap(), c.answer())
}

#[test]
fn interface_keeps_kernel_name_and_descriptors() {
    let iface = interface(vec![4, 5], "tun3");
    assert_eq!(iface.name(), "tun3");
    assert_eq!(iface.files(), &[4, 5]);
    assert_eq!(iface.socket(), 3);
    let bad = ifreq { name: [0xff; 16], data: IfData::Empty };
    assert_eq!(Interface::new(vec![4], 3, &bad).unwrap_err(), Error::InvalidName);
}

#[test]
fn plan_follows_fixed_order_and_skips_absent_fields() {
    let p: Params = TunBuilder::new()
        .up()
        .destination([10, 1, 0, 1])
        .address([10, 0, 0, 1])
        .group(7)
        .mtu(1400)
        .into();
    assert_eq!(
        init_plan(&p),
        vec![
            Access::Write(Value::Mtu(1400)),
            Access::Group { gid: 7, next: 0 },
            Access::Write(Value::Address([10, 0, 0, 1])),
            Access::Write(Value::Destination([10, 1, 0, 1])),
            Access::Raise(IFF_UP | IFF_RUNNING),
        ]
    );
    assert!(init_plan(&TunBuilder::new().into()).is_empty());
}

#[test]
fn full_plan_lists_every_property() {
    let p: Params = TunBuilder::new()
        .mtu(1350)
        .owner(1)
        .group(2)
        .address([10, 0, 0, 1])
        .netmask([255, 255, 255, 0])
        .destination([10, 1, 0, 1])
        .broadcast([10, 0, 0, 255])
        .persist()
        .up()
        .into();
    assert_eq!(
        init_plan(&p),
        vec![
            Access::Write(Value::Mtu(1350)),
            Access::Owner { uid: 1, next: 0 },
            Access::Group { gid: 2, next: 0 },
            Access::Write(Value::Address([10, 0, 0, 1])),
            Access::Write(Value::Netmask([255, 255, 255, 0])),
            Access::Write(Value::Destination([10, 1, 0, 1])),
            Access::Write(Value::Broadcast([10, 0, 0, 255])),
            Access::Persist { next: 0 },
            Access::Raise(0x41),
        ]
    );
}

/// A stand-in kernel that stores what is written and answers reads from it.
struct Kernel {
    flags: i16,
    mtu: i32,
    addr: [u8; 4],
    dst: [u8; 4],
}

impl Kernel {
    fn call(&mut self, c: &ControlCall) -> Result<IfData, i32> {
        match c {
            ControlCall::Fetch { prop: Prop::Flags, .. } => Ok(IfData::Flags(self.flags)),
            ControlCall::Fetch { prop: Prop::Mtu, .. } => Ok(IfData::Mtu(self.mtu)),
            ControlCall::Fetch { prop: Prop::Address, .. } => Ok(IfData::Addr(ipv4_to_address(self.addr))),
            ControlCall::Fetch { prop: Prop::Destination, .. } => Ok(IfData::Addr(ipv4_to_address(self.dst))),
            ControlCall::Store { prop, req, .. } => {
                match (prop, req.data) {
                    (Prop::Flags, IfData::Flags(f)) => self.flags = f,
                    (Prop::Mtu, IfData::Mtu(m)) => self.mtu = m,
                    (Prop::Address, IfData::Addr(s)) => self.addr = [s.data[2], s.data[3], s.data[4], s.data[5]],
                    (Prop::Destination, IfData::Addr(s)) => self.dst = [s.data[2], s.data[3], s.data[4], s.data[5]],
                    _ => {}
                }
                Ok(req.data)
            }
            _ => Ok(IfData::Empty),
        }
    }
}

#[test]
fn single_tun_scenario_reads_back_address_and_up_flags() {
    let p: Params = TunBuilder::new()
        .name("")
        .packet_info(false)
        .address([10, 0, 0, 1])
        .netmask([255, 255, 255, 0])
        .destination([10, 1, 0, 1])
        .up()
        .into();
    assert_eq!(p.flags, IFF_TUN | IFF_NO_PI);
    let iface = interface(vec![9], "tun0");
    let mut k = Kernel { flags: 0x1000, mtu: 1500, addr: [0; 4], dst: [0; 4] };
    let (calls, outcome, _) = run(&iface, init_plan(&p), |c| k.call(c));
    assert_eq!(outcome, Ok(()));
    assert_eq!(calls.len(), 5);
    // every property call names the interface
    for c in &calls {
        match c {
            ControlCall::Fetch { socket, req, .. } | ControlCall::Store { socket, req, .. } => {
                assert_eq!(*socket, 3);
                assert_eq!(req.name, ifreq::new("tun0").name);
            }
            _ => panic!("unexpected call {:?}", c),
        }
    }
    let (_, _, answer) = run(&iface, vec![Access::Read(Prop::Address)], |c| k.call(c));
    assert_eq!(answer, Some(Answer::Value(Value::Address([10, 0, 0, 1]))));
    let (_, _, answer) = run(&iface, vec![Access::Read(Prop::Flags)], |c| k.call(c));
    match answer {
        Some(Answer::Value(Value::Flags(f))) => {
            assert_eq!(f & IFF_UP, IFF_UP);
            assert_eq!(f & IFF_RUNNING, IFF_RUNNING);
            assert_eq!(f & 0x1000, 0x1000);
        }
        other => panic!("unexpected answer {:?}", other),
    }
}

#[test]
fn raising_up_twice_is_idempotent_and_keeps_other_bits() {
    let iface = interface(vec![9], "tun0");
    let mut k = Kernel { flags: 0x1010, mtu: 0, addr: [0; 4], dst: [0; 4] };
    let (calls, outcome, answer) = run(&iface, vec![Access::Raise(0x41)], |c| k.call(c));
    assert_eq!(outcome, Ok(()));
    assert_eq!(calls.len(), 2);
    assert_eq!(answer, Some(Answer::Value(Value::Flags(0x1051))));
    let (_, _, answer) = run(&iface, vec![Access::Raise(0x41)], |c| k.call(c));
    assert_eq!(answer, Some(Answer::Value(Value::Flags(0x1051))));
    assert_eq!(k.flags, 0x1051);
}

#[test]
fn write_reports_the_value_written() {
    let iface = interface(vec![9], "tun0");
    let r = iface.request(&Access::Write(Value::Mtu(1350))).unwrap();
    match r {
        ControlCall::Store { prop: Prop::Mtu, req, .. } => assert_eq!(req.data, IfData::Mtu(1350)),
        other => panic!("unexpected call {:?}", other),
    }
    let n = iface.respond(&Access::Write(Value::Mtu(1350)), &IfData::Mtu(1350));
    assert_eq!(n, Some(Next::Done(Answer::Value(Value::Mtu(1350)))));
    let w = iface.request(&Access::Write(Value::Netmask([255, 255, 0, 0]))).unwrap();
    match w {
        ControlCall::Store { prop: Prop::Netmask, req, .. } => {
            assert_eq!(req.data, IfData::Addr(ipv4_to_address([255, 255, 0, 0])))
        }
        other => panic!("unexpected call {:?}", other),
    }
}

#[test]
fn read_reply_of_wrong_shape_is_an_error() {
    let iface = interface(vec![9], "tun0");
    assert_eq!(iface.respond(&Access::Read(Prop::Mtu), &IfData::Flags(1)), None);
    let (_, outcome, _) = run(&iface, vec![Access::Read(Prop::Mtu)], |_| Ok(IfData::Empty));
    assert_eq!(outcome, Err(Error::Reply(Property::Mtu)));
}

#[test]
fn owner_group_and_persist_apply_to_every_descriptor() {
    let iface = interface(vec![4, 5, 6], "tun0");
    let plan = vec![Access::Owner { uid: 10, next: 0 }, Access::Persist { next: 0 }];
    let (calls, outcome, answer) = run(&iface, plan, |_| Ok(IfData::Empty));
    assert_eq!(outcome, Ok(()));
    assert_eq!(answer, Some(Answer::Applied));
    assert_eq!(
        calls,
        vec![
            ControlCall::SetOwner { fd: 4, uid: 10 },
            ControlCall::SetOwner { fd: 5, uid: 10 },
            ControlCall::SetOwner { fd: 6, uid: 10 },
            ControlCall::SetPersist { fd: 4 },
            ControlCall::SetPersist { fd: 5 },
            ControlCall::SetPersist { fd: 6 },
        ]
    );
}

#[test]
fn descriptor_steps_without_descriptors_issue_nothing() {
    let iface = interface(vec![], "tun0");
    let plan = vec![Access::Group { gid: 1, next: 0 }, Access::Write(Value::Mtu(1000))];
    let (calls, outcome, _) = run(&iface, plan, |_| Ok(IfData::Empty));
    assert_eq!(outcome, Ok(()));
    assert_eq!(calls.len(), 1);
}

#[test]
fn first_failure_ends_configuration() {
    let iface = interface(vec![4, 5], "tun0");
    let plan = vec![
        Access::Write(Value::Mtu(1000)),
        Access::Owner { uid: 1, next: 0 },
        Access::Write(Value::Address([1, 2, 3, 4])),
    ];
    let mut seen = 0;
    let (calls, outcome, _) = run(&iface, plan, |c| {
        seen += 1;
        match c {
            ControlCall::SetOwner { fd: 5, .. } => Err(1),
            _ => Ok(IfData::Empty),
        }
    });
    assert_eq!(outcome, Err(Error::Configuration(Property::Owner, 1)));
    assert_eq!(seen, 3);
    assert_eq!(calls.last(), Some(&ControlCall::SetOwner { fd: 5, uid: 1 }));
}

#[test]
fn configurator_ignores_replies_once_over() {
    let iface = interface(vec![4], "tun0");
    let mut c = Configurator::new(vec![Access::Write(Value::Mtu(1))]);
    assert!(c.next_call(&iface).is_some());
    c.on_reply(&iface, Err(19));
    assert_eq!(c.outcome(), Some(Err(Error::Configuration(Property::Mtu, 19))));
    c.on_reply(&iface, Ok(IfData::Empty));
    assert_eq!(c.outcome(), Some(Err(Error::Configuration(Property::Mtu, 19))));
    assert_eq!(c.next_call(&iface), None);
}

#[test]
fn ipv6_address_reads_index_then_writes_record() {
    let iface = interface(vec![9], "tun0");
    let addr = [0xfd, 0, 0, 0, 0, 0, 0, 0, 0, 0, 0, 0, 0, 0, 0, 1];
    let p: Params = TunBuilder::new().address([10, 0, 0, 1]).address6(addr, 64).into();
    let plan = init_plan(&p);
    assert_eq!(
        plan,
        vec![Access::Write(Value::Address([10, 0, 0, 1])), Access::Address6 { addr, prefix: 64 }]
    );
    let (calls, outcome, answer) = run(&iface, plan, |c| match c {
        ControlCall::Fetch { prop: Prop::Index, .. } => Ok(IfData::Index(17)),
        _ => Ok(IfData::Empty),
    });
    assert_eq!(outcome, Ok(()));
    assert_eq!(answer, Some(Answer::Applied));
    assert_eq!(calls.len(), 3);
    assert!(matches!(calls[1], ControlCall::Fetch { prop: Prop::Index, .. }));
    assert_eq!(calls[2], ControlCall::Store6 { req: In6Req { addr, prefix: 64, index: 17 } });
}

#[test]
fn ipv6_index_failure_names_the_property() {
    let iface = interface(vec![9], "tun0");
    let (_, outcome, _) = run(&iface, vec![Access::Address6 { addr: [0; 16], prefix: 8 }], |_| Err(19));
    assert_eq!(outcome, Err(Error::Configuration(Property::Address6, 19)));
}

#[test]
fn ipv6_prefix_is_checked_up_front() {
    let ok: Params = TunBuilder::new().address6([0; 16], 128).into();
    assert_eq!(ok.check(), Ok(()));
    let bad: Params = TunBuilder::new().address6([0; 16], 129).into();
    assert_eq!(bad.check(), Err(Error::InvalidPrefix(129)));
    let none: Params = TunBuilder::new().into();
    assert_eq!(none.check(), Ok(()));
}

#[test]
fn interface_accessors_name_their_access() {
    let iface = interface(vec![4, 5], "tun0");
    assert_eq!(iface.mtu(None), Access::Read(Prop::Mtu));
    assert_eq!(iface.mtu(Some(1280)), Access::Write(Value::Mtu(1280)));
    assert_eq!(iface.address(None), Access::Read(Prop::Address));
    assert_eq!(iface.netmask(Some([255, 0, 0, 0])), Access::Write(Value::Netmask([255, 0, 0, 0])));
    assert_eq!(iface.destination(Some([1, 2, 3, 4])), Access::Write(Value::Destination([1, 2, 3, 4])));
    assert_eq!(iface.broadcast(None), Access::Read(Prop::Broadcast));
    assert_eq!(iface.flags(None), Access::Read(Prop::Flags));
    assert_eq!(iface.flags(Some(IFF_UP)), Access::Raise(IFF_UP));
    assert_eq!(iface.owner(1000), Access::Owner { uid: 1000, next: 0 });
    assert_eq!(iface.group(50), Access::Group { gid: 50, next: 0 });
    assert_eq!(iface.persist(), Access::Persist { next: 0 });
}

#[test]
fn interface_init_runs_the_plan() {
    let iface = interface(vec![4], "tun0");
    let p: Params = TunBuilder::new().mtu(1300).persist().into();
    let mut c = iface.init(&p);
    assert_eq!(
        c.next_call(&iface).map(|call| matches!(call, ControlCall::Store { prop: Prop::Mtu, .. })),
        Some(true)
    );
    c.on_reply(&iface, Ok(IfData::Mtu(1300)));
    assert_eq!(c.next_call(&iface), Some(ControlCall::SetPersist { fd: 4 }));
    c.on_reply(&iface, Ok(IfData::Empty));
    assert_eq!(c.next_call(&iface), None);
    assert_eq!(c.outcome(), Some(Ok(())));
}
