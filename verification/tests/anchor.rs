use uwb_rs::anchor::{AnchorAction, AnchorState, ANCHOR_LISTEN_TIMEOUT_US};
use uwb_rs::handshake::{DeviceAddress, READY};
use uwb_rs::radio::{Decode, Frame, Outcome, RangingKind};

fn frame(payload: &[u8], decode: Decode) -> Outcome<'_> {
    Outcome::Received(Frame {
        payload,
        source: Some(DeviceAddress::Short { pan_id: 0x0d57, address: 0x0042 }),
        decode,
    })
}

#[test]
fn anchor_advertises_first() {
    let s = AnchorState::start();
    assert_eq!(s, AnchorState::Advertising);
    assert_eq!(s.action(), AnchorAction::Advertise);
    let s = s.step(&Outcome::Completed);
    assert_eq!(s, AnchorState::AwaitingReady);
    assert_eq!(s.action(), AnchorAction::Listen { timeout_us: 5_000_000, decode: None });
    assert_eq!(ANCHOR_LISTEN_TIMEOUT_US, 5_000_000);
}

#[test]
fn anchor_full_exchange() {
    let s = AnchorState::AwaitingReady;
    let s = s.step(&frame(&READY, Decode::NotRequested));
    assert_eq!(s, AnchorState::Pinging);
    assert_eq!(s.action(), AnchorAction::SendPing);
    let s = s.step(&Outcome::Completed);
    assert_eq!(s, AnchorState::AwaitingRequest);
    assert_eq!(
        s.action(),
        AnchorAction::Listen { timeout_us: 5_000_000, decode: Some(RangingKind::Request) }
    );
    let s = s.step(&frame(b"RANGING REQUEST", Decode::Decoded));
    assert_eq!(s, AnchorState::Responding);
    assert_eq!(s.action(), AnchorAction::SendResponse);
    let s = s.step(&Outcome::Completed);
    assert_eq!(s, AnchorState::AwaitingReady);
}

#[test]
fn anchor_ignores_other_frames_while_waiting_for_ready() {
    let s = AnchorState::AwaitingReady;
    assert_eq!(s.step(&frame(b"ADVERTISE", Decode::NotRequested)), AnchorState::AwaitingReady);
    assert_eq!(s.step(&frame(b"READY!", Decode::NotRequested)), AnchorState::AwaitingReady);
    assert_eq!(s.step(&Outcome::TimedOut), AnchorState::AwaitingReady);
    assert_eq!(s.step(&Outcome::ReceiveFailed), AnchorState::AwaitingReady);
}

#[test]
fn anchor_gives_up_on_missing_request() {
    let s = AnchorState::AwaitingRequest;
    assert_eq!(s.step(&Outcome::TimedOut), AnchorState::AwaitingReady);
    assert_eq!(s.step(&Outcome::ReceiveFailed), AnchorState::AwaitingReady);
    assert_eq!(s.step(&frame(b"x", Decode::OtherMessage)), AnchorState::AwaitingReady);
    assert_eq!(s.step(&frame(b"x", Decode::Malformed)), AnchorState::AwaitingReady);
    assert_eq!(s.step(&frame(&READY, Decode::OtherMessage)), AnchorState::AwaitingReady);
}

#[test]
fn anchor_never_advertises_again() {
    let outcomes = [
        Outcome::Completed,
        Outcome::TimedOut,
        frame(&READY, Decode::NotRequested),
        Outcome::Completed,
        frame(b"RANGING REQUEST", Decode::Decoded),
        Outcome::Completed,
        Outcome::ReceiveFailed,
    ];
    let mut s = AnchorState::start();
    for o in outcomes.iter() {
        s = s.step(o);
        assert_ne!(s, AnchorState::Advertising);
        assert_ne!(s.action(), AnchorAction::Advertise);
    }
}
