use uwb_rs::handshake::{
    advertise_transmission, bytes_equal, is_advertise, is_ready, ready_transmission, DeviceAddress,
    ADVERTISE, READY,
};

#[test]
fn messages_spell_their_names() {
    assert_eq!(&ADVERTISE, b"ADVERTISE");
    assert_eq!(&READY, b"READY");
}

#[test]
fn advertisement_is_broadcast() {
    let t = advertise_transmission();
    assert_eq!(t.payload, b"ADVERTISE");
    assert_eq!(t.destination, Some(DeviceAddress::Short { pan_id: 0xffff, address: 0xffff }));
}

#[test]
fn ready_goes_to_the_anchor() {
    let t = ready_transmission(0x0d57, 0x5601);
    assert_eq!(t.payload, b"READY");
    assert_eq!(t.destination, Some(DeviceAddress::Short { pan_id: 0x0d57, address: 0x5601 }));
}

#[test]
fn payload_recognition() {
    assert!(is_ready(b"READY"));
    assert!(!is_ready(b"READ"));
    assert!(!is_ready(b"READYY"));
    assert!(!is_ready(b"ADVERTISE"));
    assert!(is_advertise(b"ADVERTISE"));
    assert!(!is_advertise(b"advertise"));
    assert!(!is_advertise(b""));
}

#[test]
fn bytes_equal_compares_contents() {
    assert!(bytes_equal(b"", b""));
    assert!(bytes_equal(b"abc", b"abc"));
    assert!(!bytes_equal(b"abc", b"abd"));
    assert!(!bytes_equal(b"ab", b"abc"));
}
