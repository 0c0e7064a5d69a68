//! The anchor's side of the ranging protocol.
//!
//! An anchor advertises itself once, then serves tags forever: it waits for a
//! `READY`, answers with a ranging ping, waits for the tag's ranging request and
//! answers that with a ranging response. A timeout, a failed reception or an
//! unexpected frame sends it back to waiting for a `READY`.
use vstd::prelude::*;
use crate::handshake::{is_ready, READY};
use crate::radio::{decoded_message, is_decoded, is_reception, Decode, Frame, Outcome, RangingKind};

verus! {

/// How long, in microseconds, an anchor listens for one frame.
pub const ANCHOR_LISTEN_TIMEOUT_US: u32 = 5_000_000;

/// Where an anchor is in its protocol.
#[derive(Clone, Copy, Debug, PartialEq, Eq, Structural)]
pub enum AnchorState {
    /// Just started: the advertisement has not gone out.
    Advertising,
    /// Waiting for a tag's `READY`.
    AwaitingReady,
    /// A `READY` came in; the ping is to go out.
    Pinging,
    /// The ping went out; waiting for the tag's ranging request.
    AwaitingRequest,
    /// A ranging request came in; the response is to go out.
    Responding,
}

/// What the firmware is to do next for an anchor.
#[derive(Clone, Copy, Debug, PartialEq, Eq, Structural)]
pub enum AnchorAction {
    /// Broadcast `ADVERTISE` and wait until it has gone out.
    Advertise,
    /// Listen for one frame for at most `timeout_us` microseconds and, if `decode`
    /// names a ranging message, decode the frame as that message.
    Listen { timeout_us: u32, decode: Option<RangingKind> },
    /// Flash the ping LED, send a ranging ping and wait until it has gone out.
    SendPing,
    /// Flash the request LED, wait briefly, send the ranging response to the request
    /// just decoded, wait until it has gone out and flash the response LED.
    SendResponse,
}

/// The action an anchor takes in each state.
pub open spec fn anchor_action(s: AnchorState) -> AnchorAction {
    match s {
        AnchorState::Advertising => AnchorAction::Advertise,
        AnchorState::AwaitingReady => AnchorAction::Listen { timeout_us: ANCHOR_LISTEN_TIMEOUT_US, decode: None },
        AnchorState::Pinging => AnchorAction::SendPing,
        AnchorState::AwaitingRequest => AnchorAction::Listen {
            timeout_us: ANCHOR_LISTEN_TIMEOUT_US,
            decode: Some(RangingKind::Request),
        },
        AnchorState::Responding => AnchorAction::SendResponse,
    }
}

/// Whether the anchor listens in this state.
pub open spec fn anchor_listens(s: AnchorState) -> bool {
    s == AnchorState::AwaitingReady || s == AnchorState::AwaitingRequest
}

/// Whether `o` is an outcome that the action of state `s` can have.
pub open spec fn anchor_outcome_fits(s: AnchorState, o: Outcome) -> bool {
    anchor_listens(s) == is_reception(o)
}

/// Whether an outcome is a received `READY`.
pub open spec fn received_ready(o: Outcome) -> bool {
    o matches Outcome::Received(f) && f.payload@ == READY@
}

/// The state an anchor is in after the action of state `s` had the outcome `o`.
pub open spec fn anchor_next(s: AnchorState, o: Outcome) -> AnchorState {
    match s {
        AnchorState::Advertising => AnchorState::AwaitingReady,
        AnchorState::AwaitingReady => if received_ready(o) {
            AnchorState::Pinging
        } else {
            AnchorState::AwaitingReady
        },
        AnchorState::Pinging => AnchorState::AwaitingRequest,
        AnchorState::AwaitingRequest => if decoded_message(o) {
            AnchorState::Responding
        } else {
            AnchorState::AwaitingReady
        },
        AnchorState::Responding => AnchorState::AwaitingReady,
    }
}

impl AnchorState {
    /// The state an anchor starts in.
    pub fn start() -> (s: AnchorState)
        ensures
            s == AnchorState::Advertising,
    {
        AnchorState::Advertising
    }

    /// The action to take in this state.
    pub fn action(&self) -> (a: AnchorAction)
        ensures
            a == anchor_action(*self),
    {
        match self {
            AnchorState::Advertising => AnchorAction::Advertise,
            AnchorState::AwaitingReady => AnchorAction::Listen { timeout_us: ANCHOR_LISTEN_TIMEOUT_US, decode: None },
            AnchorState::Pinging => AnchorAction::SendPing,
            AnchorState::AwaitingRequest => AnchorAction::Listen {
                timeout_us: ANCHOR_LISTEN_TIMEOUT_US,
                decode: Some(RangingKind::Request),
            },
            AnchorState::Responding => AnchorAction::SendResponse,
        }
    }

    /// The state after this state's action had the outcome `outcome`.
    pub fn step(self, outcome: &Outcome) -> (next: AnchorState)
        requires
            anchor_outcome_fits(self, *outcome),
        ensures
            next == anchor_next(self, *outcome),
    {
        match self {
            AnchorState::Advertising => AnchorState::AwaitingReady,
            AnchorState::AwaitingReady => {
                let ready = match outcome {
                    Outcome::Received(frame) => is_ready(frame.payload),
                    _ => false,
                };
                if ready {
                    AnchorState::Pinging
                } else {
                    AnchorState::AwaitingReady
                }
            },
            AnchorState::Pinging => AnchorState::AwaitingRequest,
            AnchorState::AwaitingRequest => if is_decoded(outcome) {
                AnchorState::Responding
            } else {
                AnchorState::AwaitingReady
            },
            AnchorState::Responding => AnchorState::AwaitingReady,
        }
    }
}

/// The states an anchor passes through, `s` first, when its actions have the
/// outcomes `os` one after the other.
#[verifier::opaque]
pub open spec fn anchor_trace(s: AnchorState, os: Seq<Outcome>) -> Seq<AnchorState>
    decreases os.len(),
{
    if os.len() == 0 {
        seq![s]
    } else {
        seq![s] + anchor_trace(anchor_next(s, os[0]), os.drop_first())
    }
}

/// A trace holds one state more than there are outcomes, and each state follows from
/// the one before it and the outcome between them.
pub proof fn lemma_anchor_trace(s: AnchorState, os: Seq<Outcome>)
    ensures
        anchor_trace(s, os).len() == os.len() + 1,
        anchor_trace(s, os)[0] == s,
        forall|k: int|
            #![trigger os[k]]
            0 <= k < os.len() ==> anchor_trace(s, os)[k + 1] == anchor_next(
                anchor_trace(s, os)[k],
                os[k],
            ),
    decreases os.len(),
{
    reveal(anchor_trace);
    if os.len() > 0 {
        let rest = os.drop_first();
        let next = anchor_next(s, os[0]);
        lemma_anchor_trace(next, rest);
        assert forall|k: int| #![trigger os[k]] 0 <= k < os.len() implies anchor_trace(s, os)[k + 1]
            == anchor_next(anchor_trace(s, os)[k], os[k]) by {
            if k > 0 {
                assert(anchor_trace(s, os)[k + 1] == anchor_trace(next, rest)[k]);
                assert(anchor_trace(s, os)[k] == anchor_trace(next, rest)[k - 1]);
                assert(os[k] == rest[k - 1]);
            }
        }
    }
}

/// An anchor advertises once: no outcome ever takes it back to advertising.
pub proof fn anchor_advertises_once(s: AnchorState, os: Seq<Outcome>)
    ensures
        forall|k: int|
            1 <= k <= os.len() ==> #[trigger] anchor_trace(s, os)[k] != AnchorState::Advertising,
{
    lemma_anchor_trace(s, os);
    assert forall|k: int| 1 <= k <= os.len() implies #[trigger] anchor_trace(s, os)[k]
        != AnchorState::Advertising by {
        assert(anchor_trace(s, os)[(k - 1) + 1] == anchor_next(anchor_trace(s, os)[k - 1], os[k - 1]));
    }
}

/// Which state and outcome lead to the three states of a handshake.
proof fn lemma_anchor_predecessor(s: AnchorState, o: Outcome)
    ensures
        anchor_next(s, o) == AnchorState::Responding ==> s == AnchorState::AwaitingRequest
            && decoded_message(o),
        anchor_next(s, o) == AnchorState::AwaitingRequest ==> s == AnchorState::Pinging,
        anchor_next(s, o) == AnchorState::Pinging ==> s == AnchorState::AwaitingReady
            && received_ready(o),
        anchor_next(s, o) != AnchorState::Advertising,
{
}

/// The handshake that precedes one response in a trace.
proof fn lemma_response_handshake(os: Seq<Outcome>, k: int)
    requires
        0 <= k <= os.len(),
        anchor_trace(AnchorState::Advertising, os)[k] == AnchorState::Responding,
    ensures
        3 <= k,
        anchor_trace(AnchorState::Advertising, os)[k - 1] == AnchorState::AwaitingRequest,
        decoded_message(os[k - 1]),
        anchor_trace(AnchorState::Advertising, os)[k - 2] == AnchorState::Pinging,
        anchor_trace(AnchorState::Advertising, os)[k - 3] == AnchorState::AwaitingReady,
        received_ready(os[k - 3]),
{
    let t = anchor_trace(AnchorState::Advertising, os);
    lemma_anchor_trace(AnchorState::Advertising, os);
    assert(k != 0);
    assert(t[(k - 1) + 1] == anchor_next(t[k - 1], os[k - 1]));
    lemma_anchor_predecessor(t[k - 1], os[k - 1]);
    assert(k - 1 != 0);
    assert(t[(k - 2) + 1] == anchor_next(t[k - 2], os[k - 2]));
    lemma_anchor_predecessor(t[k - 2], os[k - 2]);
    assert(k - 2 != 0);
    assert(t[(k - 3) + 1] == anchor_next(t[k - 3], os[k - 3]));
    lemma_anchor_predecessor(t[k - 3], os[k - 3]);
}

/// Whether the state at position `k` of the trace from `Advertising` under `os` ends a
/// full handshake: a `READY` came in, a ping went out and a ranging request came in,
/// in that order and with nothing in between.
pub open spec fn ends_handshake(os: Seq<Outcome>, k: int) -> bool {
    let t = anchor_trace(AnchorState::Advertising, os);
    &&& 3 <= k
    &&& t[k - 1] == AnchorState::AwaitingRequest
    &&& decoded_message(os[k - 1])
    &&& t[k - 2] == AnchorState::Pinging
    &&& t[k - 3] == AnchorState::AwaitingReady
    &&& received_ready(os[k - 3])
}

/// An anchor that started by advertising sends a ranging response only at the end of a
/// full handshake.
pub proof fn anchor_responds_only_after_handshake(os: Seq<Outcome>)
    ensures
        forall|k: int|
            0 <= k <= os.len() && anchor_trace(AnchorState::Advertising, os)[k]
                == AnchorState::Responding ==> #[trigger] ends_handshake(os, k),
{
    assert forall|k: int|
        0 <= k <= os.len() && anchor_trace(AnchorState::Advertising, os)[k]
            == AnchorState::Responding implies #[trigger] ends_handshake(os, k) by {
        lemma_response_handshake(os, k);
    }
}

/// An anchor never gets stuck in a handshake: whatever the outcomes, it is back to
/// waiting for a `READY` within four actions.
pub proof fn anchor_returns_to_waiting(
    s: AnchorState,
    o1: Outcome,
    o2: Outcome,
    o3: Outcome,
    o4: Outcome,
)
    ensures
        ({
            let s1 = anchor_next(s, o1);
            let s2 = anchor_next(s1, o2);
            let s3 = anchor_next(s2, o3);
            let s4 = anchor_next(s3, o4);
            ||| s1 == AnchorState::AwaitingReady
            ||| s2 == AnchorState::AwaitingReady
            ||| s3 == AnchorState::AwaitingReady
            ||| s4 == AnchorState::AwaitingReady
        }),
{
}

/// A waiting anchor answers every `READY` it receives with a ping, whoever sent it.
pub proof fn anchor_answers_every_ready(f: Frame)
    requires
        f.payload@ == READY@,
    ensures
        anchor_next(AnchorState::AwaitingReady, Outcome::Received(f)) == AnchorState::Pinging,
{
}

/// A waiting anchor keeps waiting on anything but a received `READY`.
pub proof fn anchor_waits_through_everything_else(o: Outcome)
    requires
        !(o matches Outcome::Received(f) && f.payload@ == READY@),
    ensures
        anchor_next(AnchorState::AwaitingReady, o) == AnchorState::AwaitingReady,
{
}

/// After its ping, an anchor responds to a decoded ranging request, whoever sent it,
/// and otherwise goes back to waiting for a `READY`.
pub proof fn anchor_responds_to_every_request(o: Outcome)
    ensures
        (o matches Outcome::Received(f) && f.decode == Decode::Decoded) ==> anchor_next(
            AnchorState::AwaitingRequest,
            o,
        ) == AnchorState::Responding,
        !(o matches Outcome::Received(f) && f.decode == Decode::Decoded) ==> anchor_next(
            AnchorState::AwaitingRequest,
            o,
        ) == AnchorState::AwaitingReady,
{
}

/// Each sending action, once done, leads on: the advertisement to waiting for `READY`,
/// the ping to waiting for the request, the response back to waiting for `READY`.
pub proof fn anchor_sends_lead_on(o: Outcome)
    ensures
        anchor_next(AnchorState::Advertising, o) == AnchorState::AwaitingReady,
        anchor_next(AnchorState::Pinging, o) == AnchorState::AwaitingRequest,
        anchor_next(AnchorState::Responding, o) == AnchorState::AwaitingReady,
{
}

/// What an anchor does in each state: advertise, listen five seconds for a `READY`
/// without decoding, ping, listen five seconds for a ranging request, respond.
pub proof fn anchor_actions()
    ensures
        anchor_action(AnchorState::Advertising) == AnchorAction::Advertise,
        anchor_action(AnchorState::AwaitingReady) == (AnchorAction::Listen {
            timeout_us: 5_000_000,
            decode: None,
        }),
        anchor_action(AnchorState::Pinging) == AnchorAction::SendPing,
        anchor_action(AnchorState::AwaitingRequest) == (AnchorAction::Listen {
            timeout_us: 5_000_000,
            decode: Some(RangingKind::Request),
        }),
        anchor_action(AnchorState::Responding) == AnchorAction::SendResponse,
{
}

} // verus!
