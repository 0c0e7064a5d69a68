use uwb_rs::ranging::{response_distance_mm, times_measurable, DistanceError, ResponseTimes, TIME_MAX};

#[test]
fn distance_of_three_metres() {
    // 640 time units of flight each way is 10 ns, about three metres.
    let t = ResponseTimes {
        rx_time: 1_006_280,
        ping_reply_time: 1_000_000,
        ping_round_trip_time: 1_001_280,
        request_tx_time: 5_000,
        request_reply_time: 1_000_000,
    };
    assert_eq!(response_distance_mm(&t), Ok(2997));
}

#[test]
fn distance_across_timer_wrap() {
    let t = ResponseTimes {
        rx_time: 1_000_000,
        ping_reply_time: 1_000_000,
        ping_round_trip_time: 1_001_280,
        request_tx_time: TIME_MAX - 1_279,
        request_reply_time: 1_000_000,
    };
    assert_eq!(response_distance_mm(&t), Ok(2997));
}

#[test]
fn distance_errors() {
    let reply_longer = ResponseTimes {
        rx_time: 3_000,
        ping_reply_time: 2_000,
        ping_round_trip_time: 1_000,
        request_tx_time: 2_000,
        request_reply_time: 2_000,
    };
    assert_eq!(response_distance_mm(&reply_longer), Err(DistanceError::RtGreaterThanRtt));
    let long_round_trips = ResponseTimes {
        rx_time: TIME_MAX,
        ping_reply_time: 1,
        ping_round_trip_time: TIME_MAX,
        request_tx_time: 0,
        request_reply_time: 1,
    };
    assert_eq!(
        response_distance_mm(&long_round_trips),
        Err(DistanceError::RoundTripTimesTooLarge)
    );
    let long_replies = ResponseTimes {
        rx_time: 1_000,
        ping_reply_time: TIME_MAX,
        ping_round_trip_time: 1_000,
        request_tx_time: 0,
        request_reply_time: TIME_MAX,
    };
    assert_eq!(response_distance_mm(&long_replies), Err(DistanceError::ReplyTimesTooLarge));
}

#[test]
fn measurable_times() {
    let t = ResponseTimes {
        rx_time: 1_006_280,
        ping_reply_time: 1_000_000,
        ping_round_trip_time: 1_001_280,
        request_tx_time: 5_000,
        request_reply_time: 1_000_000,
    };
    assert!(times_measurable(&t));
    let zero = ResponseTimes {
        rx_time: 42,
        ping_reply_time: 0,
        ping_round_trip_time: 0,
        request_tx_time: 42,
        request_reply_time: 0,
    };
    assert!(!times_measurable(&zero));
    let almost_zero = ResponseTimes { rx_time: 43, ..zero };
    assert!(times_measurable(&almost_zero));
    assert_eq!(response_distance_mm(&almost_zero), Ok(0));
    let too_late = ResponseTimes { rx_time: TIME_MAX + 1, ..t };
    assert!(!times_measurable(&too_late));
}

#[test]
fn no_flight_gives_zero_distance() {
    let t = ResponseTimes {
        rx_time: 2_500,
        ping_reply_time: 1_000,
        ping_round_trip_time: 1_000,
        request_tx_time: 2_000,
        request_reply_time: 500,
    };
    assert_eq!(response_distance_mm(&t), Ok(0));
}
