//! What the firmware's radio loop hands the protocol state machines: the outcome of
//! the action that the machine asked for last.
use vstd::prelude::*;
use crate::handshake::DeviceAddress;

verus! {

/// A ranging message of the DW1000 two-way ranging scheme.
#[derive(Clone, Copy, Debug, PartialEq, Eq, Structural)]
pub enum RangingKind {
    Ping,
    Request,
    Response,
}

/// What came of decoding a received frame as the ranging message that the listen
/// action named.
#[derive(Clone, Copy, Debug, PartialEq, Eq, Structural)]
pub enum Decode {
    /// The listen action named no ranging message; nothing was decoded.
    NotRequested,
    /// The frame is the named ranging message.
    Decoded,
    /// The frame is not the named ranging message.
    OtherMessage,
    /// The frame claims to be the named ranging message but could not be decoded.
    Malformed,
}

/// A received frame, as far as the protocol looks at it.
#[derive(Debug)]
pub struct Frame<'a> {
    /// The frame's payload.
    pub payload: &'a [u8],
    /// The source address in the frame's header, if it has one.
    pub source: Option<DeviceAddress>,
    /// What came of decoding the frame as the ranging message the listen action named.
    pub decode: Decode,
}

/// The outcome of an action.
#[derive(Debug)]
pub enum Outcome<'a> {
    /// A transmission, or another action that is not a listen, is done.
    Completed,
    /// The listen timer ran out before a frame arrived.
    TimedOut,
    /// Receiving failed for another reason.
    ReceiveFailed,
    /// A frame arrived.
    Received(Frame<'a>),
}

/// Whether an outcome is one that a listen action can have.
pub open spec fn is_reception(o: Outcome) -> bool {
    !(o is Completed)
}

/// Whether an outcome is a received frame whose ranging decode gave the named message.
pub open spec fn decoded_message(o: Outcome) -> bool {
    o matches Outcome::Received(f) && f.decode == Decode::Decoded
}

/// Whether a received frame was decoded as the named ranging message.
pub fn is_decoded(o: &Outcome) -> (b: bool)
    ensures
        b == decoded_message(*o),
{
    match o {
        Outcome::Received(f) => match f.decode {
            Decode::Decoded => true,
            _ => false,
        },
        _ => false,
    }
}

} // verus!
