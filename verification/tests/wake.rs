use fleetwake::wake::{check_outline, magic_packet, WakeFault, ADDRESS_LEN, PACKET_LEN, SEPARATOR};

#[test]
fn constants() {
    assert_eq!(SEPARATOR, ':');
    assert_eq!(ADDRESS_LEN, 17);
    assert_eq!(PACKET_LEN, 102);
}

#[test]
fn packet_for_an_address() {
    let packet = magic_packet("AA:BB:CC:DD:EE:FF").unwrap();
    let mut expected = vec![0xFFu8; 6];
    for _ in 0..16 {
        expected.extend_from_slice(&[0xAA, 0xBB, 0xCC, 0xDD, 0xEE, 0xFF]);
    }
    assert_eq!(packet.len(), 102);
    assert_eq!(packet, expected);
}

#[test]
fn packet_is_not_the_text() {
    let packet = magic_packet("01:02:03:04:05:06").unwrap();
    assert_ne!(packet, "01:02:03:04:05:06".as_bytes().to_vec());
    assert_eq!(&packet[..6], &[0xFF; 6]);
    assert_eq!(&packet[6..12], &[1, 2, 3, 4, 5, 6]);
    assert_eq!(&packet[96..], &[1, 2, 3, 4, 5, 6]);
}

#[test]
fn lower_case_digits_are_read() {
    let packet = magic_packet("0a:1b:2c:3d:4e:5f").unwrap();
    assert_eq!(&packet[6..12], &[0x0a, 0x1b, 0x2c, 0x3d, 0x4e, 0x5f]);
}

#[test]
fn wrong_length_is_refused() {
    assert_eq!(magic_packet(""), Err(WakeFault::InvalidLength));
    assert_eq!(magic_packet("01:02:03:04:05"), Err(WakeFault::InvalidLength));
    assert_eq!(magic_packet("01:02:03:04:05:06:07"), Err(WakeFault::InvalidLength));
    assert_eq!(check_outline("01:02:03:04:05:0"), Err(WakeFault::InvalidLength));
}

#[test]
fn wrong_digits_are_refused() {
    assert_eq!(magic_packet("ZZ:02:03:04:05:06"), Err(WakeFault::InvalidFormat));
    assert_eq!(magic_packet("0:102:03:04:05:06"), Err(WakeFault::InvalidFormat));
    assert_eq!(check_outline("ZZ:02:03:04:05:06"), Ok(()));
}

#[test]
fn wrong_number_of_separators_is_refused() {
    assert_eq!(magic_packet("01002:03:04:05:06"), Err(WakeFault::InvalidFormat));
    assert_eq!(magic_packet("0102030405060708:"), Err(WakeFault::InvalidFormat));
    assert_eq!(magic_packet("01020304:05060708"), Err(WakeFault::InvalidFormat));
    assert_eq!(magic_packet("0102:0304:0506:07"), Err(WakeFault::InvalidFormat));
    assert_eq!(magic_packet(":::::::::::::::::"), Err(WakeFault::InvalidFormat));
    assert_eq!(magic_packet("01:02:03:04:05::0"), Err(WakeFault::InvalidFormat));
    assert_eq!(magic_packet("01-02-03-04-05-06"), Err(WakeFault::InvalidFormat));
    assert_eq!(check_outline("01-02-03-04-05-06"), Err(WakeFault::InvalidFormat));
}

#[test]
fn length_counts_bytes() {
    assert_eq!(magic_packet("0\u{e9}:02:03:04:05:06"), Err(WakeFault::InvalidLength));
    assert_eq!(magic_packet("\u{e9}:02:03:04:05:06"), Err(WakeFault::InvalidFormat));
}

#[test]
fn outline_of_a_good_address() {
    assert_eq!(check_outline("AA:BB:CC:DD:EE:FF"), Ok(()));
}
