//! The two handshake messages that anchors and tags exchange before ranging,
//! and the addresses they go to.
use vstd::prelude::*;

verus! {

/// The payload that an anchor broadcasts once, when it starts: `ADVERTISE`.
pub const ADVERTISE: [u8; 9] = [65, 68, 86, 69, 82, 84, 73, 83, 69];

/// The payload that a tag sends to one anchor to start a ranging exchange: `READY`.
pub const READY: [u8; 5] = [82, 69, 65, 68, 89];

/// The PAN identifier and the short address that mean "every device".
pub const BROADCAST_PAN_ID: u16 = 0xffff;
pub const BROADCAST_SHORT_ADDRESS: u16 = 0xffff;

/// An IEEE 802.15.4 device address, as a frame header carries it.
#[derive(Clone, Copy, Debug, PartialEq, Eq, Structural)]
pub enum DeviceAddress {
    /// A 16-bit short address within a PAN.
    Short { pan_id: u16, address: u16 },
    /// A 64-bit extended address within a PAN.
    Extended { pan_id: u16, address: u64 },
}

/// A frame to transmit: its payload and where it goes (`None`: no destination field).
pub struct Transmission {
    pub payload: &'static [u8],
    pub destination: Option<DeviceAddress>,
}

/// Calls `ieee802154::mac::Address::broadcast` with the short addressing mode.
/// The crate returns the short address `0xffff` in the PAN `0xffff`.
#[verifier::external_body]
fn short_broadcast() -> (a: Option<DeviceAddress>)
    ensures
        a == Some(DeviceAddress::Short { pan_id: BROADCAST_PAN_ID, address: BROADCAST_SHORT_ADDRESS }),
{
    match ieee802154::mac::Address::broadcast(&ieee802154::mac::AddressMode::Short) {
        Some(ieee802154::mac::Address::Short(pan_id, address)) => Some(
            DeviceAddress::Short { pan_id: pan_id.0, address: address.0 },
        ),
        Some(ieee802154::mac::Address::Extended(pan_id, address)) => Some(
            DeviceAddress::Extended { pan_id: pan_id.0, address: address.0 },
        ),
        None => None,
    }
}

/// What an anchor sends to announce itself: `ADVERTISE`, broadcast to every short address.
pub fn advertise_transmission() -> (t: Transmission)
    ensures
        t.payload@ == ADVERTISE@,
        t.destination == Some(DeviceAddress::Short { pan_id: BROADCAST_PAN_ID, address: BROADCAST_SHORT_ADDRESS }),
{
    Transmission { payload: ADVERTISE.as_slice(), destination: short_broadcast() }
}

/// What a tag sends to the anchor `destination` of the PAN `pan_id` before ranging with it.
pub fn ready_transmission(pan_id: u16, destination: u16) -> (t: Transmission)
    ensures
        t.payload@ == READY@,
        t.destination == Some(DeviceAddress::Short { pan_id, address: destination }),
{
    Transmission {
        payload: READY.as_slice(),
        destination: Some(DeviceAddress::Short { pan_id, address: destination }),
    }
}

/// Whether two byte strings are equal.
pub fn bytes_equal(a: &[u8], b: &[u8]) -> (eq: bool)
    ensures
        eq == (a@ == b@),
{
    if a.len() != b.len() {
        return false;
    }
    let mut i: usize = 0;
    while i < a.len()
        invariant
            a@.len() == b@.len(),
            i <= a@.len(),
            forall|k: int| 0 <= k < i ==> a@[k] == b@[k],
        decreases a@.len() - i,
    {
        if a[i] != b[i] {
            return false;
        }
        i = i + 1;
    }
    assert(a@ == b@);
    true
}

/// Whether a received payload is an anchor's advertisement.
pub fn is_advertise(payload: &[u8]) -> (b: bool)
    ensures
        b == (payload@ == ADVERTISE@),
{
    bytes_equal(payload, ADVERTISE.as_slice())
}

/// Whether a received payload is a tag's `READY`.
pub fn is_ready(payload: &[u8]) -> (b: bool)
    ensures
        b == (payload@ == READY@),
{
    bytes_equal(payload, READY.as_slice())
}

} // verus!
