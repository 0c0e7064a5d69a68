//! The radio settings that anchors and tags share.
use vstd::prelude::*;

verus! {

#[verifier::external_type_specification]
#[verifier::external_body]
pub struct ExRxConfig(dwm1001::dw1000::RxConfig);

#[verifier::external_type_specification]
#[verifier::external_body]
pub struct ExTxConfig(dwm1001::dw1000::TxConfig);

/// The PAN that all anchors and tags of the network belong to.
pub const DEFAULT_PAN_ID: u16 = 0x0d57;

/// The short address a device has until it takes one from its serial number.
pub const DEFAULT_SHORT_ADDRESS: u16 = 0x0123;

/// Calls `dw1000::RxConfig::default`, the DW1000 driver's default receiver settings.
/// Nothing is stated of the settings, which the library only hands on.
#[verifier::external_body]
fn default_rx_config() -> dwm1001::dw1000::RxConfig {
    dwm1001::dw1000::RxConfig::default()
}

/// Calls `dw1000::TxConfig::default`, the DW1000 driver's default transmitter settings.
/// Nothing is stated of the settings, which the library only hands on.
#[verifier::external_body]
fn default_tx_config() -> dwm1001::dw1000::TxConfig {
    dwm1001::dw1000::TxConfig::default()
}

/// A device's radio settings and its address in the network.
pub struct UWBConfig {
    pub rx_config: dwm1001::dw1000::RxConfig,
    pub tx_config: dwm1001::dw1000::TxConfig,
    pub pan_id: u16,
    pub short_address: u16,
}

impl Default for UWBConfig {
    /// The driver's default settings, the network's PAN and the placeholder short address.
    fn default() -> (c: Self)
        ensures
            c.pan_id == DEFAULT_PAN_ID,
            c.short_address == DEFAULT_SHORT_ADDRESS,
    {
        UWBConfig {
            rx_config: default_rx_config(),
            tx_config: default_tx_config(),
            pan_id: DEFAULT_PAN_ID,
            short_address: DEFAULT_SHORT_ADDRESS,
        }
    }
}

impl UWBConfig {
    /// The settings of the device whose serial number is `serial`: the defaults, with
    /// the low 16 bits of the serial number's second word as the short address.
    pub fn for_serial_number(serial: (u32, u32)) -> (c: Self)
        ensures
            c.pan_id == DEFAULT_PAN_ID,
            c.short_address as int == serial.1 as int % 0x10000,
    {
        let word: u32 = serial.1;
        let low: u16 = word as u16;
        assert(low == word % 0x10000) by (bit_vector)
            requires
                low == word as u16,
        ;
        UWBConfig { short_address: low, ..UWBConfig::default() }
    }
}

} // verus!
