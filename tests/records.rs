use tokio_tun::{
    ipv4_from_address, ipv4_to_address, registration_request,
    IfData, ifreq, Params, TunBuilder, AF_INET, ARPHRD_ETHER, EAGAIN, IFF_MULTI_QUEUE, IFF_NO_PI,
    IFF_RUNNING, IFF_TAP, IFF_TUN, IFF_UP, IFNAMSIZ,
};

#[test]
fn kernel_constants_match_libc() {
    assert_eq!(IFF_TUN, libc::IFF_TUN as i16);
    assert_eq!(IFF_TAP, libc::IFF_TAP as i16);
    assert_eq!(IFF_NO_PI, libc::IFF_NO_PI as i16);
    assert_eq!(IFF_MULTI_QUEUE, libc::IFF_MULTI_QUEUE as i16);
    assert_eq!(IFF_UP, libc::IFF_UP as i16);
    assert_eq!(IFF_RUNNING, libc::IFF_RUNNING as i16);
    assert_eq!(AF_INET, libc::AF_INET as u16);
    assert_eq!(ARPHRD_ETHER, libc::ARPHRD_ETHER as u16);
    assert_eq!(EAGAIN, libc::EAGAIN);
    assert_eq!(IFNAMSIZ, libc::IFNAMSIZ);
}

#[test]
fn request_name_is_padded() {
    let r = ifreq::new("tun7");
    assert_eq!(&r.name[..5], b"tun7\0");
    assert!(r.name[4..].iter().all(|b| *b == 0));
    assert_eq!(r.data, IfData::Empty);
    assert_eq!(r.name_bytes(), b"tun7".to_vec());
    assert_eq!(r.name(), Some("tun7".to_string()));
}

#[test]
fn request_name_is_truncated_to_field_width() {
    let r = ifreq::new("abcdefghijklmnopqrstuvwxyz");
    assert_eq!(&r.name[..15], b"abcdefghijklmno");
    assert_eq!(r.name[15], 0);
    assert_eq!(r.name(), Some("abcdefghijklmno".to_string()));
}

#[test]
fn request_name_truncation_keeps_whole_characters() {
    // 14 ASCII bytes then a two-byte character: only 15 bytes fit, so the
    // character is dropped whole
    let r = ifreq::new("aaaaaaaaaaaaaa\u{e9}");
    assert_eq!(r.name_bytes(), b"aaaaaaaaaaaaaa".to_vec());
    assert_eq!(r.name(), Some("aaaaaaaaaaaaaa".to_string()));
}

#[test]
fn empty_request_name_is_all_zero() {
    let r = ifreq::new("");
    assert_eq!(r.name, [0u8; 16]);
    assert_eq!(r.name(), Some(String::new()));
}

#[test]
fn request_name_that_is_not_utf8() {
    let r = ifreq { name: [0x74, 0xff, 0xfe, 0, 0, 0, 0, 0, 0, 0, 0, 0, 0, 0, 0, 0], data: IfData::Empty };
    assert_eq!(r.name_bytes(), vec![0x74, 0xff, 0xfe]);
    assert_eq!(r.name(), None);
}

#[test]
fn ipv4_socket_address_layout() {
    let s = ipv4_to_address([10, 0, 0, 1]);
    assert_eq!(s.family, AF_INET);
    assert_eq!(s.data, [0, 0, 10, 0, 0, 1, 0, 0, 0, 0, 0, 0, 0, 0]);
    assert_eq!(ipv4_from_address(s), [10, 0, 0, 1]);
    assert_eq!(ipv4_from_address(ipv4_to_address([255, 255, 255, 0])), [255, 255, 255, 0]);
}

#[test]
fn registration_adds_multi_queue_flag() {
    let single = registration_request("tun0", IFF_TUN | IFF_NO_PI, false);
    assert_eq!(single.data, IfData::Flags(0x1001));
    let multi = registration_request("tun0", IFF_TUN, true);
    assert_eq!(multi.data, IfData::Flags(0x0101));
    assert_eq!(multi.name, ifreq::new("tun0").name);
}

#[test]
fn builder_defaults() {
    let b = TunBuilder::new();
    assert_eq!(b.name, "");
    assert!(!b.is_tap);
    assert!(b.packet_info);
    assert!(!b.persist && !b.up);
    assert_eq!(b.mtu, None);
    assert_eq!(b.address, None);
    assert_eq!(b.address6, None);
    assert_eq!(b.mac, None);
    let p: Params = b.into();
    assert_eq!(p.name, None);
    assert_eq!(p.flags, IFF_TUN);
    assert!(!p.cloexec);
}

#[test]
fn builder_reads_back_every_setting() {
    let b = TunBuilder::new()
        .name("mytun")
        .tap(true)
        .packet_info(false)
        .mtu(1350)
        .owner(1000)
        .group(100)
        .address([10, 0, 0, 1])
        .mac([1, 2, 3, 4, 5, 6])
        .destination([10, 1, 0, 1])
        .broadcast([10, 0, 0, 255])
        .netmask([255, 255, 255, 0])
        .persist()
        .up();
    assert_eq!(b.name, "mytun");
    assert!(b.is_tap && !b.packet_info && b.persist && b.up);
    assert_eq!(b.mtu, Some(1350));
    assert_eq!(b.owner, Some(1000));
    assert_eq!(b.group, Some(100));
    assert_eq!(b.address, Some([10, 0, 0, 1]));
    assert_eq!(b.mac, Some([1, 2, 3, 4, 5, 6]));
    assert_eq!(b.destination, Some([10, 1, 0, 1]));
    assert_eq!(b.broadcast, Some([10, 0, 0, 255]));
    assert_eq!(b.netmask, Some([255, 255, 255, 0]));
    let p = Params::from(b);
    assert_eq!(p.name, Some("mytun".to_string()));
    assert_eq!(p.flags, IFF_TAP | IFF_NO_PI);
    assert_eq!(p.mtu, Some(1350));
    assert_eq!(p.owner, Some(1000));
    assert_eq!(p.group, Some(100));
    assert_eq!(p.address, Some([10, 0, 0, 1]));
    assert_eq!(p.destination, Some([10, 1, 0, 1]));
    assert_eq!(p.broadcast, Some([10, 0, 0, 255]));
    assert_eq!(p.netmask, Some([255, 255, 255, 0]));
    assert!(p.persist && p.up);
}
