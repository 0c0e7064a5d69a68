//! A simpler tag that ranges with whichever anchor pings it.
//!
//! It listens for a frame. A ranging ping is answered with a ranging request; a ranging
//! response gives a distance if it comes from a short address; anything else is
//! acknowledged with a flash of the round LED. A timeout or a failed reception is
//! written to the serial port. After each of these the tag listens again.
use vstd::prelude::*;
use crate::radio::{decoded_message, is_reception, Decode, Frame, Outcome, RangingKind};
use crate::handshake::DeviceAddress;
use crate::tag::short_source;

verus! {

/// How long, in microseconds, the tag listens for one frame.
pub const PINGED_LISTEN_TIMEOUT_US: u32 = 5_500_000;

/// Where the tag is in its loop.
#[derive(Clone, Copy, Debug, PartialEq, Eq, Structural)]
pub enum PingedTagState {
    /// Listening for a frame, decoding it as a ranging ping.
    Listening,
    /// Nothing usable arrived; the timeout is to be written to the serial port.
    ReportingTimeout,
    /// A ping came in; the ranging request is to go out.
    Requesting,
    /// The frame was not a ping; it is to be decoded as a ranging response.
    CheckingResponse,
    /// A response from the short address `address` came in; its distance is to be measured.
    Measuring { address: u16 },
    /// The frame was of no use; the round LED is to flash.
    Acknowledging,
}

/// What the firmware is to do next for the tag.
#[derive(Clone, Copy, Debug, PartialEq, Eq, Structural)]
pub enum PingedTagAction {
    /// Listen for one frame for at most `timeout_us` microseconds and decode it as the
    /// ranging message `decode`.
    Listen { timeout_us: u32, decode: RangingKind },
    /// Write the timeout message to the serial port.
    WriteTimeout,
    /// Flash the ping LED, wait briefly, send a ranging request for the ping just
    /// decoded and wait until it has gone out.
    SendRequest,
    /// Decode the frame just received again, as the ranging message `decode`.
    Decode { decode: RangingKind },
    /// Flash the round LED, compute the distance from the response just decoded, flash
    /// the distance LED and write that the measurement is done.
    Measure { address: u16 },
    /// Flash the round LED.
    FlashRoundLed,
}

/// The action the tag takes in each state.
pub open spec fn pinged_action(s: PingedTagState) -> PingedTagAction {
    match s {
        PingedTagState::Listening => PingedTagAction::Listen {
            timeout_us: PINGED_LISTEN_TIMEOUT_US,
            decode: RangingKind::Ping,
        },
        PingedTagState::ReportingTimeout => PingedTagAction::WriteTimeout,
        PingedTagState::Requesting => PingedTagAction::SendRequest,
        PingedTagState::CheckingResponse => PingedTagAction::Decode { decode: RangingKind::Response },
        PingedTagState::Measuring { address } => PingedTagAction::Measure { address },
        PingedTagState::Acknowledging => PingedTagAction::FlashRoundLed,
    }
}

/// Whether `o` is an outcome that the action of state `s` can have. Listening has the
/// outcomes of a reception; decoding again has a received frame; the other actions
/// complete. A frame that claims to be the ranging message named but cannot be decoded
/// is not an outcome the tag takes.
pub open spec fn pinged_outcome_fits(s: PingedTagState, o: Outcome) -> bool {
    match s {
        PingedTagState::Listening => is_reception(o) && !(o matches Outcome::Received(f) && f.decode
            == Decode::Malformed),
        PingedTagState::CheckingResponse => o matches Outcome::Received(f) && f.decode
            != Decode::Malformed,
        _ => o is Completed,
    }
}

/// The state of the tag after the action of state `s` had the outcome `o`.
pub open spec fn pinged_next(s: PingedTagState, o: Outcome) -> PingedTagState {
    match s {
        PingedTagState::Listening => if !(o is Received) {
            PingedTagState::ReportingTimeout
        } else if decoded_message(o) {
            PingedTagState::Requesting
        } else {
            PingedTagState::CheckingResponse
        },
        PingedTagState::CheckingResponse => if decoded_message(o) && short_source(o) is Some {
            PingedTagState::Measuring { address: short_source(o)->0 }
        } else {
            PingedTagState::Acknowledging
        },
        _ => PingedTagState::Listening,
    }
}

impl PingedTagState {
    /// The state the tag starts in.
    pub fn start() -> (s: PingedTagState)
        ensures
            s == PingedTagState::Listening,
    {
        PingedTagState::Listening
    }

    /// The action to take in this state.
    pub fn action(&self) -> (a: PingedTagAction)
        ensures
            a == pinged_action(*self),
    {
        match self {
            PingedTagState::Listening => PingedTagAction::Listen {
                timeout_us: PINGED_LISTEN_TIMEOUT_US,
                decode: RangingKind::Ping,
            },
            PingedTagState::ReportingTimeout => PingedTagAction::WriteTimeout,
            PingedTagState::Requesting => PingedTagAction::SendRequest,
            PingedTagState::CheckingResponse => PingedTagAction::Decode { decode: RangingKind::Response },
            PingedTagState::Measuring { address } => PingedTagAction::Measure { address: *address },
            PingedTagState::Acknowledging => PingedTagAction::FlashRoundLed,
        }
    }

    /// The state after this state's action had the outcome `outcome`.
    pub fn step(self, outcome: &Outcome) -> (next: PingedTagState)
        requires
            pinged_outcome_fits(self, *outcome),
        ensures
            next == pinged_next(self, *outcome),
    {
        match self {
            PingedTagState::Listening => match outcome {
                Outcome::Received(frame) => match frame.decode {
                    Decode::Decoded => PingedTagState::Requesting,
                    _ => PingedTagState::CheckingResponse,
                },
                _ => PingedTagState::ReportingTimeout,
            },
            PingedTagState::CheckingResponse => match outcome {
                Outcome::Received(frame) => match (frame.decode, frame.source) {
                    (Decode::Decoded, Some(crate::handshake::DeviceAddress::Short { address, .. })) => {
                        PingedTagState::Measuring { address }
                    },
                    _ => PingedTagState::Acknowledging,
                },
                _ => PingedTagState::Acknowledging,
            },
            _ => PingedTagState::Listening,
        }
    }
}

/// After every action but listening and decoding again, the tag listens again.
pub proof fn pinged_tag_returns_to_listening(s: PingedTagState, o: Outcome)
    requires
        s != PingedTagState::Listening,
        s != PingedTagState::CheckingResponse,
    ensures
        pinged_next(s, o) == PingedTagState::Listening,
{
}

/// A ranging request answers a decoded ping, and a measurement a decoded ranging
/// response from a short address, for that address.
pub proof fn pinged_tag_acts_only_on_decoded_messages(s: PingedTagState, o: Outcome)
    ensures
        pinged_next(s, o) == PingedTagState::Requesting ==> s == PingedTagState::Listening
            && decoded_message(o),
        (pinged_next(s, o) matches PingedTagState::Measuring { address } ==> s
            == PingedTagState::CheckingResponse && decoded_message(o) && short_source(o) == Some(
            address,
        )),
{
}

/// A listening tag answers a decoded ping with a request, takes every other received
/// frame, whatever its source, on to be decoded as a ranging response, and reports a
/// timeout or a failed reception.
pub proof fn pinged_tag_listening(o: Outcome)
    ensures
        (o matches Outcome::Received(f) && f.decode == Decode::Decoded) ==> pinged_next(
            PingedTagState::Listening,
            o,
        ) == PingedTagState::Requesting,
        (o matches Outcome::Received(f) && f.decode != Decode::Decoded) ==> pinged_next(
            PingedTagState::Listening,
            o,
        ) == PingedTagState::CheckingResponse,
        !(o is Received) ==> pinged_next(PingedTagState::Listening, o)
            == PingedTagState::ReportingTimeout,
{
}

/// A frame decoded as a ranging response from the short address `address` is measured
/// for that address; any other frame is acknowledged.
pub proof fn pinged_tag_checking_response(o: Outcome, address: u16)
    ensures
        (o matches Outcome::Received(f) && f.decode == Decode::Decoded && (f.source matches Some(
            DeviceAddress::Short { address: a, .. },
        ) && a == address)) ==> pinged_next(PingedTagState::CheckingResponse, o)
            == (PingedTagState::Measuring { address }),
        !(o matches Outcome::Received(f) && f.decode == Decode::Decoded && (f.source matches Some(
            DeviceAddress::Short { .. },
        ))) ==> pinged_next(PingedTagState::CheckingResponse, o) == PingedTagState::Acknowledging,
{
}

/// A ranging response from a short address that arrives while the tag listens is
/// measured for that address two steps later: first as a frame that is not a ping, then
/// decoded as a response.
pub proof fn pinged_tag_measures_every_short_response(
    heard: Frame,
    decoded: Frame,
    pan_id: u16,
    address: u16,
)
    requires
        heard.decode != Decode::Decoded,
        decoded.decode == Decode::Decoded,
        decoded.source == Some(DeviceAddress::Short { pan_id, address }),
    ensures
        pinged_next(
            pinged_next(PingedTagState::Listening, Outcome::Received(heard)),
            Outcome::Received(decoded),
        ) == (PingedTagState::Measuring { address }),
{
}

/// What the tag does in each state: listen five and a half seconds decoding a ping,
/// write the timeout, send the request, decode again as a response, measure for the
/// responder's address, flash the round LED.
pub proof fn pinged_tag_actions(address: u16)
    ensures
        pinged_action(PingedTagState::Listening) == (PingedTagAction::Listen {
            timeout_us: 5_500_000,
            decode: RangingKind::Ping,
        }),
        pinged_action(PingedTagState::ReportingTimeout) == PingedTagAction::WriteTimeout,
        pinged_action(PingedTagState::Requesting) == PingedTagAction::SendRequest,
        pinged_action(PingedTagState::CheckingResponse) == (PingedTagAction::Decode {
            decode: RangingKind::Response,
        }),
        pinged_action(PingedTagState::Measuring { address }) == (PingedTagAction::Measure {
            address,
        }),
        pinged_action(PingedTagState::Acknowledging) == PingedTagAction::FlashRoundLed,
{
}

} // verus!
