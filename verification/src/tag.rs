//! The tag's side of the ranging protocol.
//!
//! A tag first listens until it has heard the advertisements of `N_ANCHORS` anchors,
//! keeping the short address of each. Then it ranges with them in turn, forever: it
//! sends the anchor a `READY`, waits for the anchor's ranging ping, answers with a
//! ranging request and waits for the ranging response, whose distance it reports.
//! Missing the ping or the response starts the round again at the first anchor; a
//! response that cannot be used moves on to the next anchor.
use vstd::prelude::*;
use crate::handshake::{is_advertise, DeviceAddress, ADVERTISE};
use crate::radio::{decoded_message, is_reception, Decode, Frame, Outcome, RangingKind};

verus! {

/// How many anchors a tag ranges with.
pub const N_ANCHORS: usize = 4;

/// How long, in microseconds, a discovering tag listens for one advertisement.
pub const DISCOVERY_TIMEOUT_US: u32 = 15_000_000;

/// How long, in microseconds, a tag waits for a `READY` to go out.
pub const READY_SEND_TIMEOUT_US: u32 = 5_000_000;

/// How long, in microseconds, a tag waits for an anchor's ranging ping.
pub const PING_TIMEOUT_US: u32 = 5_000_000;

/// How long, in microseconds, a tag waits for an anchor's ranging response.
pub const RESPONSE_TIMEOUT_US: u32 = 500_000;

/// Where a tag is in its protocol. `index` is the position of the current anchor
/// among the discovered ones.
#[derive(Clone, Copy, Debug, PartialEq, Eq, Structural)]
pub enum TagPhase {
    /// Listening for anchors' advertisements.
    Discovering,
    /// All anchors are known; the accelerometer is to be set up.
    StartingAccelerometer,
    /// A `READY` is to go to the current anchor.
    SendingReady { index: usize },
    /// Waiting for the current anchor's ranging ping.
    AwaitingPing { index: usize },
    /// The ping came in; the ranging request is to go out.
    SendingRequest { index: usize },
    /// Waiting for the current anchor's ranging response.
    AwaitingResponse { index: usize },
    /// A response from the short address `address` came in; its distance is to be reported.
    Reporting { index: usize, address: u16 },
}

/// What the firmware is to do next for a tag.
#[derive(Clone, Copy, Debug, PartialEq, Eq, Structural)]
pub enum TagAction {
    /// Listen for one frame for at most `timeout_us` microseconds and, if `decode`
    /// names a ranging message, decode the frame as that message.
    Listen { timeout_us: u32, decode: Option<RangingKind> },
    /// Enable the accelerometer's three axes in high-resolution mode at 50 Hz.
    StartAccelerometer,
    /// Send `READY` to the anchor with the short address `anchor` in the tag's PAN and
    /// wait at most `timeout_us` microseconds for it to go out.
    SendReady { anchor: u16, timeout_us: u32 },
    /// Flash the ping LED, wait briefly and send a ranging request for the ping just
    /// decoded; wait until it has gone out.
    SendRequest,
    /// Compute the distance from the response just decoded, report it for the anchor
    /// `address` if it could be computed, and flash the round LED.
    Report { address: u16 },
}

/// The abstract state of a tag: its phase and the short addresses of the anchors it knows.
pub struct TagView {
    pub phase: TagPhase,
    pub anchors: Seq<u16>,
}

/// The position of the current anchor, for the phases that have one.
pub open spec fn phase_index(p: TagPhase) -> int {
    match p {
        TagPhase::Discovering => 0,
        TagPhase::StartingAccelerometer => 0,
        TagPhase::SendingReady { index } => index as int,
        TagPhase::AwaitingPing { index } => index as int,
        TagPhase::SendingRequest { index } => index as int,
        TagPhase::AwaitingResponse { index } => index as int,
        TagPhase::Reporting { index, .. } => index as int,
    }
}

/// A tag's state is well formed: while discovering it knows fewer than `N_ANCHORS`
/// anchors; afterwards it knows exactly `N_ANCHORS` and its current anchor is one of them.
pub open spec fn tag_wf(v: TagView) -> bool {
    if v.phase == TagPhase::Discovering {
        v.anchors.len() < N_ANCHORS
    } else {
        &&& v.anchors.len() == N_ANCHORS
        &&& 0 <= phase_index(v.phase) < N_ANCHORS
    }
}

/// Whether the tag listens in this phase.
pub open spec fn tag_listens(p: TagPhase) -> bool {
    ||| p == TagPhase::Discovering
    ||| p is AwaitingPing
    ||| p is AwaitingResponse
}

/// Whether an outcome is a received advertisement.
pub open spec fn received_advertise(o: Outcome) -> bool {
    o matches Outcome::Received(f) && f.payload@ == ADVERTISE@
}

/// Whether `o` is an outcome that the action of phase `p` can have. A discovering tag
/// takes the source of every advertisement it hears, so an advertisement without a
/// source address is not one.
pub open spec fn tag_outcome_fits(p: TagPhase, o: Outcome) -> bool {
    &&& tag_listens(p) == is_reception(o)
    &&& (p == TagPhase::Discovering && received_advertise(o)) ==> o->Received_0.source is Some
}

/// The action a tag takes in each state.
pub open spec fn tag_action(v: TagView) -> TagAction {
    match v.phase {
        TagPhase::Discovering => TagAction::Listen { timeout_us: DISCOVERY_TIMEOUT_US, decode: None },
        TagPhase::StartingAccelerometer => TagAction::StartAccelerometer,
        TagPhase::SendingReady { index } => TagAction::SendReady {
            anchor: v.anchors[index as int],
            timeout_us: READY_SEND_TIMEOUT_US,
        },
        TagPhase::AwaitingPing { .. } => TagAction::Listen {
            timeout_us: PING_TIMEOUT_US,
            decode: Some(RangingKind::Ping),
        },
        TagPhase::SendingRequest { .. } => TagAction::SendRequest,
        TagPhase::AwaitingResponse { .. } => TagAction::Listen {
            timeout_us: RESPONSE_TIMEOUT_US,
            decode: Some(RangingKind::Response),
        },
        TagPhase::Reporting { address, .. } => TagAction::Report { address },
    }
}

/// The phase that sends `READY` to the anchor after the one at `index`, wrapping round
/// to the first anchor after the last.
pub open spec fn ready_after(index: usize) -> TagPhase {
    if index + 1 < N_ANCHORS {
        TagPhase::SendingReady { index: (index + 1) as usize }
    } else {
        TagPhase::SendingReady { index: 0 }
    }
}

/// The short source address of a received frame, if it has one.
pub open spec fn short_source(o: Outcome) -> Option<u16> {
    match o {
        Outcome::Received(f) => match f.source {
            Some(DeviceAddress::Short { address, .. }) => Some(address),
            _ => None,
        },
        _ => None,
    }
}

/// The state of a tag after the action of state `v` had the outcome `o`.
pub open spec fn tag_next(v: TagView, o: Outcome) -> TagView {
    match v.phase {
        TagPhase::Discovering => if received_advertise(o) && short_source(o) is Some {
            let anchors = v.anchors.push(short_source(o)->0);
            if anchors.len() == N_ANCHORS {
                TagView { phase: TagPhase::StartingAccelerometer, anchors }
            } else {
                TagView { phase: TagPhase::Discovering, anchors }
            }
        } else {
            v
        },
        TagPhase::StartingAccelerometer => TagView {
            phase: TagPhase::SendingReady { index: 0 },
            anchors: v.anchors,
        },
        TagPhase::SendingReady { index } => TagView {
            phase: TagPhase::AwaitingPing { index },
            anchors: v.anchors,
        },
        TagPhase::AwaitingPing { index } => if decoded_message(o) {
            TagView { phase: TagPhase::SendingRequest { index }, anchors: v.anchors }
        } else {
            TagView { phase: TagPhase::SendingReady { index: 0 }, anchors: v.anchors }
        },
        TagPhase::SendingRequest { index } => TagView {
            phase: TagPhase::AwaitingResponse { index },
            anchors: v.anchors,
        },
        TagPhase::AwaitingResponse { index } => if o is Received {
            if decoded_message(o) && short_source(o) is Some {
                TagView {
                    phase: TagPhase::Reporting { index, address: short_source(o)->0 },
                    anchors: v.anchors,
                }
            } else {
                TagView { phase: ready_after(index), anchors: v.anchors }
            }
        } else {
            TagView { phase: TagPhase::SendingReady { index: 0 }, anchors: v.anchors }
        },
        TagPhase::Reporting { index, .. } => TagView { phase: ready_after(index), anchors: v.anchors },
    }
}

/// A tag: its phase and the short addresses of the anchors it has discovered, in the
/// order it heard their advertisements.
pub struct Tag {
    phase: TagPhase,
    /// The discovered anchors are the first `count` entries.
    anchors: [u16; N_ANCHORS],
    count: usize,
}

impl View for Tag {
    type V = TagView;

    closed spec fn view(&self) -> TagView {
        TagView { phase: self.phase, anchors: self.anchors@.take(self.count as int) }
    }
}

/// The short address of a received frame's source, if it has one.
fn short_source_of(outcome: &Outcome) -> (a: Option<u16>)
    ensures
        a == short_source(*outcome),
{
    match outcome {
        Outcome::Received(frame) => match frame.source {
            Some(DeviceAddress::Short { address, .. }) => Some(address),
            _ => None,
        },
        _ => None,
    }
}

/// The phase that sends `READY` to the anchor after the one at `index`.
fn next_ready(index: usize) -> (p: TagPhase)
    requires
        index < N_ANCHORS,
    ensures
        p == ready_after(index),
{
    if index + 1 < N_ANCHORS {
        TagPhase::SendingReady { index: index + 1 }
    } else {
        TagPhase::SendingReady { index: 0 }
    }
}

impl Tag {
    #[verifier::type_invariant]
    closed spec fn inv(&self) -> bool {
        &&& self.count <= N_ANCHORS
        &&& tag_wf(self@)
    }

    /// A tag that has just started: discovering, with no anchors known.
    pub fn new() -> (t: Tag)
        ensures
            tag_wf(t@),
            t@.phase == TagPhase::Discovering,
            t@.anchors == Seq::<u16>::empty(),
    {
        let t = Tag { phase: TagPhase::Discovering, anchors: [0, 0, 0, 0], count: 0 };
        assert(t@.anchors == Seq::<u16>::empty());
        t
    }

    /// The tag's phase.
    pub fn phase(&self) -> (p: TagPhase)
        ensures
            p == self@.phase,
    {
        self.phase
    }

    /// The short addresses of the anchors the tag has discovered.
    pub fn anchors(&self) -> (a: &[u16])
        ensures
            a@ == self@.anchors,
    {
        proof {
            use_type_invariant(self);
        }
        let all: &[u16] = self.anchors.as_slice();
        &all[0..self.count]
    }

    /// The action to take in this state.
    pub fn action(&self) -> (a: TagAction)
        ensures
            a == tag_action(self@),
    {
        proof {
            use_type_invariant(self);
        }
        match self.phase {
            TagPhase::Discovering => TagAction::Listen { timeout_us: DISCOVERY_TIMEOUT_US, decode: None },
            TagPhase::StartingAccelerometer => TagAction::StartAccelerometer,
            TagPhase::SendingReady { index } => TagAction::SendReady {
                anchor: self.anchors[index],
                timeout_us: READY_SEND_TIMEOUT_US,
            },
            TagPhase::AwaitingPing { .. } => TagAction::Listen {
                timeout_us: PING_TIMEOUT_US,
                decode: Some(RangingKind::Ping),
            },
            TagPhase::SendingRequest { .. } => TagAction::SendRequest,
            TagPhase::AwaitingResponse { .. } => TagAction::Listen {
                timeout_us: RESPONSE_TIMEOUT_US,
                decode: Some(RangingKind::Response),
            },
            TagPhase::Reporting { address, .. } => TagAction::Report { address },
        }
    }

    /// The tag after this state's action had the outcome `outcome`.
    pub fn step(self, outcome: &Outcome) -> (next: Tag)
        requires
            tag_outcome_fits(self@.phase, *outcome),
        ensures
            next@ == tag_next(self@, *outcome),
            tag_wf(next@),
    {
        proof {
            use_type_invariant(&self);
            tag_step_keeps_wf(self@, *outcome);
        }
        let Tag { phase, anchors, count } = self;
        let mut anchors = anchors;
        match phase {
            TagPhase::Discovering => {
                let advertised = match outcome {
                    Outcome::Received(frame) => is_advertise(frame.payload),
                    _ => false,
                };
                if advertised {
                    match short_source_of(outcome) {
                        Some(address) => {
                            let ghost known = anchors@.take(count as int);
                            anchors[count] = address;
                            let count = count + 1;
                            assert(anchors@.take(count as int) == known.push(address));
                            if count == N_ANCHORS {
                                Tag { phase: TagPhase::StartingAccelerometer, anchors, count }
                            } else {
                                Tag { phase: TagPhase::Discovering, anchors, count }
                            }
                        },
                        None => Tag { phase, anchors, count },
                    }
                } else {
                    Tag { phase, anchors, count }
                }
            },
            TagPhase::StartingAccelerometer => Tag { phase: TagPhase::SendingReady { index: 0 }, anchors, count },
            TagPhase::SendingReady { index } => Tag { phase: TagPhase::AwaitingPing { index }, anchors, count },
            TagPhase::AwaitingPing { index } => {
                let pinged = match outcome {
                    Outcome::Received(frame) => match frame.decode {
                        Decode::Decoded => true,
                        _ => false,
                    },
                    _ => false,
                };
                if pinged {
                    Tag { phase: TagPhase::SendingRequest { index }, anchors, count }
                } else {
                    Tag { phase: TagPhase::SendingReady { index: 0 }, anchors, count }
                }
            },
            TagPhase::SendingRequest { index } => Tag { phase: TagPhase::AwaitingResponse { index }, anchors, count },
            TagPhase::AwaitingResponse { index } => match outcome {
                Outcome::Received(frame) => {
                    let decoded = match frame.decode {
                        Decode::Decoded => true,
                        _ => false,
                    };
                    match short_source_of(outcome) {
                        Some(address) => if decoded {
                            Tag { phase: TagPhase::Reporting { index, address }, anchors, count }
                        } else {
                            Tag { phase: next_ready(index), anchors, count }
                        },
                        None => Tag { phase: next_ready(index), anchors, count },
                    }
                },
                _ => Tag { phase: TagPhase::SendingReady { index: 0 }, anchors, count },
            },
            TagPhase::Reporting { index, .. } => Tag { phase: next_ready(index), anchors, count },
        }
    }
}

/// Every step keeps a tag's state well formed.
pub proof fn tag_step_keeps_wf(v: TagView, o: Outcome)
    requires
        tag_wf(v),
    ensures
        tag_wf(tag_next(v, o)),
{
}

/// Once discovery is over, a tag's anchors never change.
pub proof fn tag_anchors_fixed_after_discovery(v: TagView, o: Outcome)
    requires
        v.phase != TagPhase::Discovering,
    ensures
        tag_next(v, o).anchors == v.anchors,
        tag_next(v, o).phase != TagPhase::Discovering,
{
}

/// A `READY` goes to an anchor the tag has discovered.
pub proof fn tag_readies_known_anchors(v: TagView)
    requires
        tag_wf(v),
    ensures
        (tag_action(v) matches TagAction::SendReady { anchor, .. } ==> v.anchors.contains(anchor)),
{
    if let TagPhase::SendingReady { index } = v.phase {
        // The anchor at `index` is the witness that the anchors contain it.
        assert(tag_action(v) == TagAction::SendReady {
            anchor: v.anchors[index as int],
            timeout_us: READY_SEND_TIMEOUT_US,
        });
        assert(v.anchors.contains(v.anchors[index as int]));
    }
}

/// A tag goes round its anchors in order: the next `READY` goes either to the anchor
/// after the current one or, when the round is over or has failed, to the first one.
pub proof fn tag_goes_round_in_order(v: TagView, o: Outcome)
    ensures
        (tag_next(v, o).phase matches TagPhase::SendingReady { index } ==> index == 0 || index
            == phase_index(v.phase) + 1),
{
}

/// A ranging request answers a ping that the current anchor just sent.
pub proof fn tag_requests_only_after_ping(v: TagView, o: Outcome)
    ensures
        (tag_next(v, o).phase matches TagPhase::SendingRequest { index } ==> v.phase
            == (TagPhase::AwaitingPing { index }) && decoded_message(o)),
{
}

/// A distance is reported only for a decoded ranging response from a short address,
/// and for that address.
pub proof fn tag_reports_only_responses(v: TagView, o: Outcome)
    ensures
        (tag_next(v, o).phase matches TagPhase::Reporting { index, address } ==> {
            &&& v.phase == (TagPhase::AwaitingResponse { index })
            &&& decoded_message(o)
            &&& short_source(o) == Some(address)
        }),
{
}

/// The short source addresses of the advertisements among `os`, in order.
pub open spec fn advertised_addresses(os: Seq<Outcome>) -> Seq<u16>
    decreases os.len(),
{
    if os.len() == 0 {
        Seq::empty()
    } else {
        let earlier = advertised_addresses(os.drop_last());
        if received_advertise(os.last()) && short_source(os.last()) is Some {
            earlier.push(short_source(os.last())->0)
        } else {
            earlier
        }
    }
}

/// The state of a tag that started in `v` after its actions had the outcomes `os`.
pub open spec fn tag_run(v: TagView, os: Seq<Outcome>) -> TagView
    decreases os.len(),
{
    if os.len() == 0 {
        v
    } else {
        tag_next(tag_run(v, os.drop_last()), os.last())
    }
}

/// The anchors a tag ranges with are the first `N_ANCHORS` whose advertisements it
/// heard, in the order it heard them; it discovers until it has heard that many.
pub proof fn tag_ranges_with_first_advertisers(os: Seq<Outcome>)
    ensures
        ({
            let v = tag_run(TagView { phase: TagPhase::Discovering, anchors: Seq::empty() }, os);
            let heard = advertised_addresses(os);
            &&& (v.phase == TagPhase::Discovering) == (heard.len() < N_ANCHORS)
            &&& heard.len() < N_ANCHORS ==> v.anchors == heard
            &&& heard.len() >= N_ANCHORS ==> v.anchors == heard.take(N_ANCHORS as int)
        }),
    decreases os.len(),
{
    let start = TagView { phase: TagPhase::Discovering, anchors: Seq::empty() };
    if os.len() > 0 {
        let earlier = os.drop_last();
        tag_ranges_with_first_advertisers(earlier);
        let v = tag_run(start, earlier);
        let heard = advertised_addresses(earlier);
        lemma_tag_run_wf(earlier);
        if heard.len() >= N_ANCHORS {
            tag_anchors_fixed_after_discovery(v, os.last());
            let now = advertised_addresses(os);
            assert(now.take(N_ANCHORS as int) == heard.take(N_ANCHORS as int));
        }
    }
}

/// A tag that starts discovering stays well formed whatever the outcomes.
proof fn lemma_tag_run_wf(os: Seq<Outcome>)
    ensures
        tag_wf(tag_run(TagView { phase: TagPhase::Discovering, anchors: Seq::empty() }, os)),
    decreases os.len(),
{
    if os.len() > 0 {
        lemma_tag_run_wf(os.drop_last());
        tag_step_keeps_wf(
            tag_run(TagView { phase: TagPhase::Discovering, anchors: Seq::empty() }, os.drop_last()),
            os.last(),
        );
    }
}

/// A tag sends `READY` only to anchors whose advertisements it heard.
pub proof fn tag_readies_only_advertisers(os: Seq<Outcome>)
    ensures
        ({
            let v = tag_run(TagView { phase: TagPhase::Discovering, anchors: Seq::empty() }, os);
            tag_action(v) matches TagAction::SendReady { anchor, .. }
                ==> advertised_addresses(os).contains(anchor)
        }),
{
    let v = tag_run(TagView { phase: TagPhase::Discovering, anchors: Seq::empty() }, os);
    let heard = advertised_addresses(os);
    tag_ranges_with_first_advertisers(os);
    lemma_tag_run_wf(os);
    tag_readies_known_anchors(v);
    if let TagAction::SendReady { anchor, .. } = tag_action(v) {
        let k = choose|k: int| 0 <= k < v.anchors.len() && v.anchors[k] == anchor;
        assert(heard[k] == anchor);
    }
}

/// Once discovery is over, a tag never gets stuck with one anchor: whatever the
/// outcomes, it sends the next `READY` within five actions.
pub proof fn tag_keeps_polling(v: TagView, o1: Outcome, o2: Outcome, o3: Outcome, o4: Outcome, o5: Outcome)
    requires
        v.phase != TagPhase::Discovering,
    ensures
        ({
            let v1 = tag_next(v, o1);
            let v2 = tag_next(v1, o2);
            let v3 = tag_next(v2, o3);
            let v4 = tag_next(v3, o4);
            let v5 = tag_next(v4, o5);
            ||| v1.phase is SendingReady
            ||| v2.phase is SendingReady
            ||| v3.phase is SendingReady
            ||| v4.phase is SendingReady
            ||| v5.phase is SendingReady
        }),
{
}

/// A discovering tag keeps the short source address of every advertisement it hears,
/// in order, and stops discovering at the fourth.
pub proof fn tag_discovers_every_short_advertiser(v: TagView, f: Frame, pan_id: u16, address: u16)
    requires
        v.phase == TagPhase::Discovering,
        f.payload@ == ADVERTISE@,
        f.source == Some(DeviceAddress::Short { pan_id, address }),
    ensures
        tag_next(v, Outcome::Received(f)).anchors == v.anchors.push(address),
        v.anchors.len() + 1 == N_ANCHORS ==> tag_next(v, Outcome::Received(f)).phase
            == TagPhase::StartingAccelerometer,
        v.anchors.len() + 1 != N_ANCHORS ==> tag_next(v, Outcome::Received(f)).phase
            == TagPhase::Discovering,
{
}

/// A discovering tag ignores everything but an advertisement from a short address.
pub proof fn tag_discovery_ignores_everything_else(v: TagView, o: Outcome)
    requires
        v.phase == TagPhase::Discovering,
        !(o matches Outcome::Received(f) && f.payload@ == ADVERTISE@ && (f.source matches Some(
            DeviceAddress::Short { .. },
        ))),
    ensures
        tag_next(v, o) == v,
{
}

/// The index of the anchor after the one at `index`, wrapping round after the last.
pub open spec fn following_index(index: usize) -> usize {
    if index + 1 < N_ANCHORS {
        (index + 1) as usize
    } else {
        0
    }
}

/// How a ranging tag's phase moves, with its anchors unchanged: the accelerometer leads
/// to the first anchor's `READY`; a `READY` to waiting for that anchor's ping; a decoded
/// ping to the request and anything else to the first anchor again; the request to
/// waiting for the response; a decoded response from a short address `a` to reporting
/// `a`, any other received frame to the next anchor, and a timeout or failure to the
/// first anchor; a report to the next anchor.
pub proof fn tag_ranging_transitions(v: TagView, o: Outcome, index: usize, address: u16)
    requires
        v.phase != TagPhase::Discovering,
    ensures
        tag_next(v, o).anchors == v.anchors,
        v.phase == TagPhase::StartingAccelerometer ==> tag_next(v, o).phase
            == (TagPhase::SendingReady { index: 0 }),
        v.phase == (TagPhase::SendingReady { index }) ==> tag_next(v, o).phase
            == (TagPhase::AwaitingPing { index }),
        v.phase == (TagPhase::AwaitingPing { index }) && (o matches Outcome::Received(f) && f.decode
            == Decode::Decoded) ==> tag_next(v, o).phase == (TagPhase::SendingRequest { index }),
        v.phase == (TagPhase::AwaitingPing { index }) && !(o matches Outcome::Received(f)
            && f.decode == Decode::Decoded) ==> tag_next(v, o).phase == (TagPhase::SendingReady {
            index: 0,
        }),
        v.phase == (TagPhase::SendingRequest { index }) ==> tag_next(v, o).phase
            == (TagPhase::AwaitingResponse { index }),
        v.phase == (TagPhase::AwaitingResponse { index }) && (o matches Outcome::Received(f)
            && f.decode == Decode::Decoded && (f.source matches Some(DeviceAddress::Short { address: a, .. })
            && a == address)) ==> tag_next(v, o).phase == (TagPhase::Reporting { index, address }),
        v.phase == (TagPhase::AwaitingResponse { index }) && (o matches Outcome::Received(f) && !(
        f.decode == Decode::Decoded && (f.source matches Some(DeviceAddress::Short { .. }))))
            ==> tag_next(v, o).phase == (TagPhase::SendingReady { index: following_index(index) }),
        v.phase == (TagPhase::AwaitingResponse { index }) && !(o is Received) ==> tag_next(v, o).phase
            == (TagPhase::SendingReady { index: 0 }),
        v.phase == (TagPhase::Reporting { index, address }) ==> tag_next(v, o).phase
            == (TagPhase::SendingReady { index: following_index(index) }),
{
}

/// What a tag does in each phase: listen fifteen seconds for advertisements, start the
/// accelerometer, send `READY` to the current anchor within five seconds, listen five
/// seconds for its ping, send the request, listen half a second for the response, and
/// report the distance for the responder's address.
pub proof fn tag_actions(v: TagView, index: usize, address: u16)
    ensures
        v.phase == TagPhase::Discovering ==> tag_action(v) == (TagAction::Listen {
            timeout_us: 15_000_000,
            decode: None,
        }),
        v.phase == TagPhase::StartingAccelerometer ==> tag_action(v) == TagAction::StartAccelerometer,
        v.phase == (TagPhase::SendingReady { index }) ==> tag_action(v) == (TagAction::SendReady {
            anchor: v.anchors[index as int],
            timeout_us: 5_000_000,
        }),
        (v.phase matches TagPhase::AwaitingPing { .. }) ==> tag_action(v) == (TagAction::Listen {
            timeout_us: 5_000_000,
            decode: Some(RangingKind::Ping),
        }),
        (v.phase matches TagPhase::SendingRequest { .. }) ==> tag_action(v) == TagAction::SendRequest,
        (v.phase matches TagPhase::AwaitingResponse { .. }) ==> tag_action(v) == (TagAction::Listen {
            timeout_us: 500_000,
            decode: Some(RangingKind::Response),
        }),
        v.phase == (TagPhase::Reporting { index, address }) ==> tag_action(v) == (TagAction::Report {
            address,
        }),
{
}

} // verus!
