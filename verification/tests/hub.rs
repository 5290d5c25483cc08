use proof_pipeline::hub::{
    continues_after_send, forward, intake, sibling, Forward, Half, Inbound, Intake, Received,
    REPLAY_CAPACITY,
};

#[test]
fn replay_buffer_holds_a_hundred_envelopes() {
    assert_eq!(REPLAY_CAPACITY, 100);
}

#[test]
fn writer_forwards_envelopes_unchanged() {
    assert_eq!(
        forward(Received::Envelope("{\"type\":\"error\"}".to_string())),
        Forward::Send("{\"type\":\"error\"}".to_string())
    );
}

#[test]
fn writer_passes_over_what_a_slow_subscriber_lost() {
    assert_eq!(forward(Received::Lagged { skipped: 1 }), Forward::Skip);
    assert_eq!(forward(Received::Lagged { skipped: u64::MAX }), Forward::Skip);
}

#[test]
fn writer_stops_on_a_closed_channel_or_a_failed_send() {
    assert_eq!(forward(Received::Closed), Forward::Stop);
    assert!(!continues_after_send(false));
    assert!(continues_after_send(true));
}

#[test]
fn reader_dispatches_text_and_stops_on_anything_else() {
    assert_eq!(intake(Inbound::Text("{}".to_string())), Intake::Dispatch("{}".to_string()));
    assert_eq!(intake(Inbound::Text(String::new())), Intake::Dispatch(String::new()));
    assert_eq!(intake(Inbound::Other), Intake::Stop);
    assert_eq!(intake(Inbound::Ended), Intake::Stop);
}

#[test]
fn either_half_takes_the_other_down() {
    assert_eq!(sibling(Half::Writer), Half::Reader);
    assert_eq!(sibling(Half::Reader), Half::Writer);
}
