//! The distance that a ranging exchange measures, from the timestamps of its response.
use vstd::prelude::*;
use dwm1001::dw1000::ranging::{compute_distance_mm, ComputeDistanceError, Response, RxMessage};
use dwm1001::dw1000::time::{Duration, Instant};

verus! {

/// The largest value of the DW1000's 40-bit system time.
pub const TIME_MAX: u64 = 0xff_ffff_ffff;

/// The timestamps and durations of a received ranging response, in units of the
/// DW1000's system time (1/64 ns, nominally).
#[derive(Clone, Copy, Debug, PartialEq, Eq, Structural)]
pub struct ResponseTimes {
    /// When the response was received, in local time.
    pub rx_time: u64,
    /// The time between the ping being received and the request being sent.
    pub ping_reply_time: u64,
    /// The time between the ping being sent and the request being received.
    pub ping_round_trip_time: u64,
    /// When the request was sent, in the sender's time.
    pub request_tx_time: u64,
    /// The time between the request being received and the response being sent.
    pub request_reply_time: u64,
}

/// Every timestamp and duration fits the 40-bit system time.
pub open spec fn times_valid(t: ResponseTimes) -> bool {
    &&& t.rx_time <= TIME_MAX
    &&& t.ping_reply_time <= TIME_MAX
    &&& t.ping_round_trip_time <= TIME_MAX
    &&& t.request_tx_time <= TIME_MAX
    &&& t.request_reply_time <= TIME_MAX
}

/// All four reply and round-trip times are zero: the response was received at the very
/// time the request was sent, and no time passed anywhere in the exchange.
pub open spec fn times_all_zero(t: ResponseTimes) -> bool {
    &&& t.ping_reply_time == 0
    &&& t.request_reply_time == 0
    &&& t.ping_round_trip_time == 0
    &&& t.rx_time == t.request_tx_time
}

/// Whether a distance can be computed from the times `t` without the computation
/// panicking: they fit the 40-bit system time and not all of them are zero.
pub fn times_measurable(t: &ResponseTimes) -> (b: bool)
    ensures
        b == (times_valid(*t) && !times_all_zero(*t)),
{
    t.rx_time <= TIME_MAX && t.ping_reply_time <= TIME_MAX && t.ping_round_trip_time <= TIME_MAX
        && t.request_tx_time <= TIME_MAX && t.request_reply_time <= TIME_MAX && !(t.ping_reply_time
        == 0 && t.request_reply_time == 0 && t.ping_round_trip_time == 0 && t.rx_time
        == t.request_tx_time)
}

/// Why a distance could not be computed.
#[derive(Clone, Copy, Debug, PartialEq, Eq, Structural)]
pub enum DistanceError {
    /// The reply times are too large to be multiplied.
    ReplyTimesTooLarge,
    /// The round-trip times are too large to be multiplied.
    RoundTripTimesTooLarge,
    /// The sum of the times is too large.
    SumTooLarge,
    /// The time of flight is too large to be turned into a distance.
    TimeOfFlightTooLarge,
    /// A reply time is greater than the round-trip time it is part of.
    RtGreaterThanRtt,
}

/// The speed of light, in metres per second (nanometres per nanosecond).
pub const SPEED_OF_LIGHT: u64 = 299_792_458;

/// The round-trip time of the request: from its sending to the response's reception,
/// across the wrap of the 40-bit system time.
pub open spec fn request_round_trip_time(t: ResponseTimes) -> int {
    if t.rx_time >= t.request_tx_time {
        t.rx_time - t.request_tx_time
    } else {
        TIME_MAX - t.request_tx_time + t.rx_time + 1
    }
}

/// The distance, in millimetres, of an asymmetric double-sided two-way ranging
/// exchange: the time of flight is `(Rtt1 * Rtt2 - Rt1 * Rt2) / (Rt1 + Rt2 + Rtt1 + Rtt2)`
/// in units of 1/64 ns, turned into millimetres. Each product, sum, difference and the
/// final multiplication must fit in 64 bits; the first that does not gives the error.
pub open spec fn two_way_distance_mm(t: ResponseTimes) -> Result<u64, DistanceError> {
    let ping_rt = t.ping_reply_time as int;
    let ping_rtt = t.ping_round_trip_time as int;
    let request_rt = t.request_reply_time as int;
    let request_rtt = request_round_trip_time(t);
    let rtt_product = ping_rtt * request_rtt;
    let rt_product = ping_rt * request_rt;
    let sum = ping_rt + request_rt + ping_rtt + request_rtt;
    if rtt_product > u64::MAX {
        Err(DistanceError::RoundTripTimesTooLarge)
    } else if rt_product > u64::MAX {
        Err(DistanceError::ReplyTimesTooLarge)
    } else if sum > u64::MAX {
        Err(DistanceError::SumTooLarge)
    } else if rtt_product < rt_product {
        Err(DistanceError::RtGreaterThanRtt)
    } else if SPEED_OF_LIGHT * ((rtt_product - rt_product) / sum) > u64::MAX {
        Err(DistanceError::TimeOfFlightTooLarge)
    } else {
        Ok((SPEED_OF_LIGHT * ((rtt_product - rt_product) / sum) / 64 / 1_000_000) as u64)
    }
}

/// Calls `dw1000::ranging::compute_distance_mm` on a response with the times `t`.
/// The crate computes the distance of `two_way_distance_mm` with checked arithmetic in
/// that order; but its division by the sum of the four times is not checked: when all
/// of them are zero it panics, so those times are left out.
#[verifier::external_body]
fn compute_distance(t: &ResponseTimes) -> (r: Result<u64, DistanceError>)
    requires
        times_valid(*t),
        !times_all_zero(*t),
    ensures
        r == two_way_distance_mm(*t),
{
    let payload = Response {
        ping_reply_time: Duration::new(t.ping_reply_time).unwrap(),
        ping_round_trip_time: Duration::new(t.ping_round_trip_time).unwrap(),
        request_tx_time: Instant::new(t.request_tx_time).unwrap(),
        request_reply_time: Duration::new(t.request_reply_time).unwrap(),
    };
    match compute_distance_mm(&RxMessage { rx_time: Instant::new(t.rx_time).unwrap(), source: None, payload }) {
        Ok(distance) => Ok(distance),
        Err(ComputeDistanceError::ReplyTimesTooLarge) => Err(DistanceError::ReplyTimesTooLarge),
        Err(ComputeDistanceError::RoundTripTimesTooLarge) => Err(DistanceError::RoundTripTimesTooLarge),
        Err(ComputeDistanceError::SumTooLarge) => Err(DistanceError::SumTooLarge),
        Err(ComputeDistanceError::TimeOfFlightTooLarge) => Err(DistanceError::TimeOfFlightTooLarge),
        Err(ComputeDistanceError::RtGreaterThanRtt) => Err(DistanceError::RtGreaterThanRtt),
    }
}

/// The distance, in millimetres, that a ranging response with the times `t` measures.
pub fn response_distance_mm(t: &ResponseTimes) -> (r: Result<u64, DistanceError>)
    requires
        times_valid(*t),
        !times_all_zero(*t),
    ensures
        r == two_way_distance_mm(*t),
{
    compute_distance(t)
}

/// With no time of flight, when each round trip takes exactly as long as the reply in it
/// (and their product fits in 64 bits), the distance is zero.
pub proof fn no_flight_no_distance(t: ResponseTimes)
    requires
        times_valid(t),
        !times_all_zero(t),
        t.ping_round_trip_time == t.ping_reply_time,
        request_round_trip_time(t) == t.request_reply_time,
        t.ping_reply_time * t.request_reply_time <= u64::MAX,
    ensures
        two_way_distance_mm(t) == Ok::<u64, DistanceError>(0),
{
    let a = t.ping_reply_time as int;
    let b = t.request_reply_time as int;
    let sum = a + b + a + b;
    assert(sum > 0);
    assert(sum <= u64::MAX);
    assert((a * b - a * b) / sum == 0) by (nonlinear_arith)
        requires
            sum > 0,
    ;
    assert(SPEED_OF_LIGHT * 0 == 0);
}

/// The measured distance is the time of flight turned into millimetres, whatever the two
/// reply times: when each round trip is its reply time plus `2 * tof` (the signal's
/// flight there and back), and the products fit in 64 bits, the distance is
/// `SPEED_OF_LIGHT * tof / 64 / 1_000_000` when that product fits in 64 bits, and the
/// time of flight is too large otherwise.
pub proof fn distance_is_time_of_flight(t: ResponseTimes, tof: nat)
    requires
        times_valid(t),
        !times_all_zero(t),
        t.ping_round_trip_time == t.ping_reply_time + 2 * tof,
        request_round_trip_time(t) == t.request_reply_time + 2 * tof,
        t.ping_round_trip_time * request_round_trip_time(t) <= u64::MAX,
    ensures
        SPEED_OF_LIGHT * tof <= u64::MAX ==> two_way_distance_mm(t) == Ok::<u64, DistanceError>(
            (SPEED_OF_LIGHT * tof / 64 / 1_000_000) as u64,
        ),
        SPEED_OF_LIGHT * tof > u64::MAX ==> two_way_distance_mm(t) == Err::<u64, DistanceError>(
            DistanceError::TimeOfFlightTooLarge,
        ),
{
    let a = t.ping_reply_time as int;
    let b = t.request_reply_time as int;
    let x = tof as int;
    let rtt1 = t.ping_round_trip_time as int;
    let rtt2 = request_round_trip_time(t);
    assert(rtt1 * rtt2 - a * b == (2 * x) * (a + b + 2 * x)) by (nonlinear_arith)
        requires
            rtt1 == a + 2 * x,
            rtt2 == b + 2 * x,
    ;
    assert(a * b <= rtt1 * rtt2) by (nonlinear_arith)
        requires
            rtt1 == a + 2 * x,
            rtt2 == b + 2 * x,
            a >= 0,
            b >= 0,
            x >= 0,
    ;
    let sum = a + b + rtt1 + rtt2;
    assert(sum == 2 * (a + b + 2 * x));
    assert(sum > 0);
    assert(((2 * x) * (a + b + 2 * x)) / sum == x) by (nonlinear_arith)
        requires
            sum == 2 * (a + b + 2 * x),
            sum > 0,
    ;
}

/// The errors come in the order of the computation: round-trip times whose product
/// does not fit in 64 bits come first, then reply times whose product does not fit,
/// then (all four times fitting the 40-bit system time, so their sum fits) reply times
/// whose product exceeds that of the round trips.
pub proof fn distance_errors(t: ResponseTimes)
    requires
        times_valid(t),
    ensures
        t.ping_round_trip_time * request_round_trip_time(t) > u64::MAX ==> two_way_distance_mm(t)
            == Err::<u64, DistanceError>(DistanceError::RoundTripTimesTooLarge),
        t.ping_round_trip_time * request_round_trip_time(t) <= u64::MAX && t.ping_reply_time
            * t.request_reply_time > u64::MAX ==> two_way_distance_mm(t) == Err::<u64, DistanceError>(
            DistanceError::ReplyTimesTooLarge,
        ),
        t.ping_reply_time * t.request_reply_time <= u64::MAX && t.ping_round_trip_time
            * request_round_trip_time(t) < t.ping_reply_time * t.request_reply_time
            ==> two_way_distance_mm(t) == Err::<u64, DistanceError>(DistanceError::RtGreaterThanRtt),
{
    assert(request_round_trip_time(t) <= TIME_MAX + 1);
}

} // verus!
