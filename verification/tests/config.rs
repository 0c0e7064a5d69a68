use dwm1001::dw1000::{RxConfig, TxConfig};
use uwb_rs::config::{DEFAULT_PAN_ID, DEFAULT_SHORT_ADDRESS};
use uwb_rs::UWBConfig;

#[test]
fn default_config() {
    let c = UWBConfig::default();
    assert_eq!(c.pan_id, 0x0d57);
    assert_eq!(c.short_address, 0x0123);
    assert_eq!(c.rx_config, RxConfig::default());
    assert_eq!(c.tx_config, TxConfig::default());
    assert_eq!(DEFAULT_PAN_ID, 0x0d57);
    assert_eq!(DEFAULT_SHORT_ADDRESS, 0x0123);
}

#[test]
fn serial_number_gives_short_address() {
    let c = UWBConfig::for_serial_number((0xdead_beef, 0x1234_5601));
    assert_eq!(c.short_address, 0x5601);
    assert_eq!(c.pan_id, 0x0d57);
    assert_eq!(c.rx_config, RxConfig::default());
}

#[test]
fn serial_number_low_bits_only() {
    assert_eq!(UWBConfig::for_serial_number((0, 0xffff_0000)).short_address, 0);
    assert_eq!(UWBConfig::for_serial_number((0, 0xffff)).short_address, 0xffff);
}
