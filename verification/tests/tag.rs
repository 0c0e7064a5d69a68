use uwb_rs::handshake::{DeviceAddress, ADVERTISE};
use uwb_rs::radio::{Decode, Frame, Outcome, RangingKind};
use uwb_rs::tag::{Tag, TagAction, TagPhase, N_ANCHORS};

fn received(payload: &[u8], source: Option<DeviceAddress>, decode: Decode) -> Outcome<'_> {
    Outcome::Received(Frame { payload, source, decode })
}

fn short(address: u16) -> Option<DeviceAddress> {
    Some(DeviceAddress::Short { pan_id: 0x0d57, address })
}

fn advert(address: u16) -> Outcome<'static> {
    received(&ADVERTISE, short(address), Decode::NotRequested)
}

fn discovered() -> Tag {
    let mut t = Tag::new();
    for a in [0x6c0d, 0x5601, 0x26bd, 0x5836] {
        t = t.step(&advert(a));
    }
    t
}

#[test]
fn tag_discovers_four_anchors() {
    let t = Tag::new();
    assert_eq!(t.phase(), TagPhase::Discovering);
    assert_eq!(t.anchors(), &[] as &[u16]);
    assert_eq!(t.action(), TagAction::Listen { timeout_us: 15_000_000, decode: None });
    let t = discovered();
    assert_eq!(N_ANCHORS, 4);
    assert_eq!(t.anchors(), &[0x6c0d, 0x5601, 0x26bd, 0x5836]);
    assert_eq!(t.phase(), TagPhase::StartingAccelerometer);
    assert_eq!(t.action(), TagAction::StartAccelerometer);
}

#[test]
fn tag_discovery_skips_what_is_not_a_short_advertisement() {
    let mut t = Tag::new();
    t = t.step(&Outcome::TimedOut);
    t = t.step(&Outcome::ReceiveFailed);
    t = t.step(&received(b"READY", short(1), Decode::NotRequested));
    t = t.step(&received(
        &ADVERTISE,
        Some(DeviceAddress::Extended { pan_id: 1, address: 99 }),
        Decode::NotRequested,
    ));
    assert_eq!(t.anchors(), &[] as &[u16]);
    assert_eq!(t.phase(), TagPhase::Discovering);
    t = t.step(&advert(7));
    t = t.step(&advert(7));
    assert_eq!(t.anchors(), &[7, 7]);
    assert_eq!(t.phase(), TagPhase::Discovering);
}

#[test]
fn tag_round_with_all_anchors() {
    let mut t = discovered().step(&Outcome::Completed);
    let anchors = [0x6c0d, 0x5601, 0x26bd, 0x5836];
    for (i, a) in anchors.iter().enumerate() {
        assert_eq!(t.phase(), TagPhase::SendingReady { index: i });
        assert_eq!(t.action(), TagAction::SendReady { anchor: *a, timeout_us: 5_000_000 });
        t = t.step(&Outcome::Completed);
        assert_eq!(
            t.action(),
            TagAction::Listen { timeout_us: 5_000_000, decode: Some(RangingKind::Ping) }
        );
        t = t.step(&received(b"PING", short(*a), Decode::Decoded));
        assert_eq!(t.action(), TagAction::SendRequest);
        t = t.step(&Outcome::Completed);
        assert_eq!(
            t.action(),
            TagAction::Listen { timeout_us: 500_000, decode: Some(RangingKind::Response) }
        );
        t = t.step(&received(b"RESPONSE", short(*a), Decode::Decoded));
        assert_eq!(t.phase(), TagPhase::Reporting { index: i, address: *a });
        assert_eq!(t.action(), TagAction::Report { address: *a });
        t = t.step(&Outcome::Completed);
    }
    assert_eq!(t.phase(), TagPhase::SendingReady { index: 0 });
    assert_eq!(t.anchors(), &anchors);
}

#[test]
fn tag_restarts_round_when_ping_is_missed() {
    let t = discovered().step(&Outcome::Completed);
    let t = t.step(&Outcome::Completed).step(&received(b"P", short(1), Decode::Decoded));
    let t = t.step(&Outcome::Completed).step(&received(b"R", short(1), Decode::Decoded));
    let t = t.step(&Outcome::Completed);
    assert_eq!(t.phase(), TagPhase::SendingReady { index: 1 });
    let t = t.step(&Outcome::Completed);
    assert_eq!(t.phase(), TagPhase::AwaitingPing { index: 1 });
    let t2 = t.step(&Outcome::TimedOut);
    assert_eq!(t2.phase(), TagPhase::SendingReady { index: 0 });
}

#[test]
fn tag_ping_failures_restart_round() {
    for o in [
        Outcome::ReceiveFailed,
        received(b"x", short(1), Decode::OtherMessage),
        received(b"x", short(1), Decode::Malformed),
    ] {
        let t = discovered().step(&Outcome::Completed).step(&Outcome::Completed);
        assert_eq!(t.step(&o).phase(), TagPhase::SendingReady { index: 0 });
    }
}

fn awaiting_response_at(index: usize) -> Tag {
    let mut t = discovered().step(&Outcome::Completed);
    for _ in 0..index {
        t = t.step(&Outcome::Completed);
        t = t.step(&received(b"P", short(1), Decode::Decoded));
        t = t.step(&Outcome::Completed);
        t = t.step(&received(b"R", short(1), Decode::OtherMessage));
    }
    t = t.step(&Outcome::Completed);
    t = t.step(&received(b"P", short(1), Decode::Decoded));
    t.step(&Outcome::Completed)
}

#[test]
fn tag_unusable_response_moves_to_next_anchor() {
    let t = awaiting_response_at(2);
    assert_eq!(t.phase(), TagPhase::AwaitingResponse { index: 2 });
    assert_eq!(
        t.step(&received(b"R", short(1), Decode::Malformed)).phase(),
        TagPhase::SendingReady { index: 3 }
    );
    let t = awaiting_response_at(2);
    let extended = Some(DeviceAddress::Extended { pan_id: 1, address: 5 });
    assert_eq!(
        t.step(&received(b"R", extended, Decode::Decoded)).phase(),
        TagPhase::SendingReady { index: 3 }
    );
    let t = awaiting_response_at(3);
    assert_eq!(
        t.step(&received(b"R", None, Decode::Decoded)).phase(),
        TagPhase::SendingReady { index: 0 }
    );
}

#[test]
fn tag_missed_response_restarts_round() {
    let t = awaiting_response_at(2);
    assert_eq!(t.step(&Outcome::TimedOut).phase(), TagPhase::SendingReady { index: 0 });
    let t = awaiting_response_at(3);
    assert_eq!(t.step(&Outcome::ReceiveFailed).phase(), TagPhase::SendingReady { index: 0 });
}

#[test]
fn tag_reports_the_responder_address() {
    let t = awaiting_response_at(1);
    let t = t.step(&received(b"R", short(0x0777), Decode::Decoded));
    assert_eq!(t.phase(), TagPhase::Reporting { index: 1, address: 0x0777 });
    assert_eq!(t.step(&Outcome::Completed).phase(), TagPhase::SendingReady { index: 2 });
}

#[test]
fn tag_ignores_late_advertisements() {
    let t = discovered().step(&Outcome::Completed).step(&Outcome::Completed);
    let t = t.step(&advert(0x1111));
    assert_eq!(t.phase(), TagPhase::SendingReady { index: 0 });
    assert_eq!(t.anchors(), &[0x6c0d, 0x5601, 0x26bd, 0x5836]);
}
