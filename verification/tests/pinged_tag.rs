use uwb_rs::handshake::DeviceAddress;
use uwb_rs::pinged_tag::{PingedTagAction, PingedTagState};
use uwb_rs::radio::{Decode, Frame, Outcome, RangingKind};

fn received(source: Option<DeviceAddress>, decode: Decode) -> Outcome<'static> {
    Outcome::Received(Frame { payload: b"frame", source, decode })
}

#[test]
fn pinged_tag_answers_pings() {
    let s = PingedTagState::start();
    assert_eq!(
        s.action(),
        PingedTagAction::Listen { timeout_us: 5_500_000, decode: RangingKind::Ping }
    );
    let s = s.step(&received(None, Decode::Decoded));
    assert_eq!(s, PingedTagState::Requesting);
    assert_eq!(s.action(), PingedTagAction::SendRequest);
    assert_eq!(s.step(&Outcome::Completed), PingedTagState::Listening);
}

#[test]
fn pinged_tag_reports_timeouts() {
    for o in [Outcome::TimedOut, Outcome::ReceiveFailed] {
        let s = PingedTagState::Listening.step(&o);
        assert_eq!(s, PingedTagState::ReportingTimeout);
        assert_eq!(s.action(), PingedTagAction::WriteTimeout);
        assert_eq!(s.step(&Outcome::Completed), PingedTagState::Listening);
    }
}

#[test]
fn pinged_tag_measures_responses_from_short_addresses() {
    let s = PingedTagState::Listening.step(&received(None, Decode::OtherMessage));
    assert_eq!(s, PingedTagState::CheckingResponse);
    assert_eq!(s.action(), PingedTagAction::Decode { decode: RangingKind::Response });
    let short = Some(DeviceAddress::Short { pan_id: 0x0d57, address: 0x26bd });
    let m = s.step(&received(short, Decode::Decoded));
    assert_eq!(m, PingedTagState::Measuring { address: 0x26bd });
    assert_eq!(m.action(), PingedTagAction::Measure { address: 0x26bd });
    assert_eq!(m.step(&Outcome::Completed), PingedTagState::Listening);
}

#[test]
fn pinged_tag_acknowledges_everything_else() {
    let s = PingedTagState::CheckingResponse;
    let extended = Some(DeviceAddress::Extended { pan_id: 1, address: 2 });
    assert_eq!(s.step(&received(extended, Decode::Decoded)), PingedTagState::Acknowledging);
    assert_eq!(s.step(&received(None, Decode::Decoded)), PingedTagState::Acknowledging);
    let short = Some(DeviceAddress::Short { pan_id: 1, address: 2 });
    let a = s.step(&received(short, Decode::OtherMessage));
    assert_eq!(a, PingedTagState::Acknowledging);
    assert_eq!(a.action(), PingedTagAction::FlashRoundLed);
    assert_eq!(a.step(&Outcome::Completed), PingedTagState::Listening);
}
