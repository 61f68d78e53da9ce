use geyser_stream::entry::{DecodeError, DecodedShredstreamEntry, Entry};
use geyser_stream::request::SubscribeRequest;
use geyser_stream::session::{
    ConnectionError, Delivery, Session, SessionState, StreamEnd, Termination,
};
use geyser_stream::shredstream::ShredstreamEntry;
use geyser_stream::update::{
    SubscribeUpdate, SubscribeUpdatePing, SubscribeUpdateSlot, UpdateOneof,
};

fn slot_update(slot: u64) -> SubscribeUpdate {
    SubscribeUpdate {
        filters: vec!["slots".to_string()],
        created_at: Some(1_700_000_000),
        update_oneof: Some(UpdateOneof::Slot(SubscribeUpdateSlot {
            slot,
            parent: Some(slot - 1),
            status: 0,
            dead_error: None,
        })),
    }
}

fn batch_update(slot: u64) -> SubscribeUpdate {
    SubscribeUpdate {
        filters: vec![],
        created_at: None,
        update_oneof: Some(UpdateOneof::EntryBatch(ShredstreamEntry {
            slot,
            entries: vec![0, 0, 0, 0, 0, 0, 0, 0],
        })),
    }
}

fn one_entry(num_hashes: u64) -> Vec<Entry> {
    vec![Entry {
        num_hashes,
        hash: "11111111111111111111111111111111".to_string(),
        transactions: vec![],
    }]
}

fn streaming(auto_decode: bool) -> Session {
    let (mut session, _wire) = Session::open(SubscribeRequest::empty(), auto_decode);
    assert_eq!(session.connected(Ok(())), Ok(()));
    session
}

#[test]
fn empty_request_opens_a_streaming_session() {
    let (mut session, wire) = Session::open(SubscribeRequest::empty(), false);
    assert_eq!(session.state(), SessionState::Idle);
    assert!(wire.accounts.is_empty() && wire.slots.is_empty() && wire.transactions.is_empty());
    assert!(wire.blocks.is_empty() && wire.entry.is_empty() && wire.commitment.is_none());
    assert_eq!(session.connected(Ok(())), Ok(()));
    assert_eq!(session.state(), SessionState::Streaming);
}

#[test]
fn failed_open_is_a_connection_error_and_stays_idle() {
    let (mut session, _wire) = Session::open(SubscribeRequest::empty(), false);
    let r = session.connected(Err("connection refused".to_string()));
    assert_eq!(r, Err(ConnectionError { reason: "connection refused".to_string() }));
    assert_eq!(session.state(), SessionState::Idle);
    assert_eq!(session.on_message(slot_update(5), None), None);
    assert_eq!(session.on_end(StreamEnd::Completed), None);
}

#[test]
fn messages_are_delivered_in_transport_order() {
    let mut session = streaming(false);
    let slots: Vec<u64> = vec![42, 7, 1000, 3, 99];
    let mut delivered = Vec::new();
    for s in &slots {
        match session.on_message(slot_update(*s), None) {
            Some(Delivery::Update(u)) => match u.update_oneof {
                Some(UpdateOneof::Slot(x)) => delivered.push(x.slot),
                other => panic!("unexpected payload {:?}", other),
            },
            other => panic!("unexpected delivery {:?}", other),
        }
    }
    assert_eq!(delivered, slots);
    assert_eq!(session.state(), SessionState::Streaming);
}

#[test]
fn a_malformed_batch_is_reported_alone_and_the_session_goes_on() {
    let mut session = streaming(true);
    let first = session.on_message(batch_update(10), Some(Ok(one_entry(1))));
    let second = session.on_message(batch_update(11), Some(Err("truncated length prefix".to_string())));
    let third = session.on_message(batch_update(12), Some(Ok(one_entry(3))));
    assert_eq!(
        first,
        Some(Delivery::Entries(DecodedShredstreamEntry { slot: 10, entries: one_entry(1) }))
    );
    assert_eq!(
        second,
        Some(Delivery::DecodeError(DecodeError {
            slot: 11,
            reason: "truncated length prefix".to_string()
        }))
    );
    assert_eq!(
        third,
        Some(Delivery::Entries(DecodedShredstreamEntry { slot: 12, entries: one_entry(3) }))
    );
    assert_eq!(session.state(), SessionState::Streaming);
}

#[test]
fn batches_pass_undecoded_without_auto_decode() {
    let mut session = streaming(false);
    assert!(!session.wants_decoding(&batch_update(10)));
    let d = session.on_message(batch_update(10), Some(Ok(one_entry(1))));
    assert_eq!(d, Some(Delivery::Update(batch_update(10))));
}

#[test]
fn only_batches_are_decoded() {
    let session = streaming(true);
    assert!(session.wants_decoding(&batch_update(10)));
    assert!(!session.wants_decoding(&slot_update(10)));
    let ping = SubscribeUpdate {
        filters: vec![],
        created_at: None,
        update_oneof: Some(UpdateOneof::Ping(SubscribeUpdatePing {})),
    };
    let mut session = session;
    assert!(!session.wants_decoding(&ping));
    assert_eq!(session.on_message(ping.clone(), None), Some(Delivery::Update(ping)));
}

#[test]
fn end_of_stream_completes_once() {
    let mut session = streaming(false);
    assert_eq!(session.on_end(StreamEnd::Completed), Some(Termination::Completed));
    assert_eq!(session.state(), SessionState::Closed);
    assert_eq!(session.on_end(StreamEnd::Completed), None);
    assert_eq!(session.on_end(StreamEnd::Error("late".to_string())), None);
    assert!(!session.close());
    assert_eq!(session.on_message(slot_update(1), None), None);
}

#[test]
fn transport_error_fails_with_its_reason() {
    let mut session = streaming(false);
    assert_eq!(
        session.on_end(StreamEnd::Error("stream reset".to_string())),
        Some(Termination::Failed("stream reset".to_string()))
    );
    assert_eq!(session.state(), SessionState::Closed);
}

#[test]
fn close_before_end_is_cancelled_exactly_once() {
    let mut session = streaming(false);
    assert!(session.close());
    assert_eq!(session.state(), SessionState::Closing);
    assert_eq!(session.on_message(slot_update(8), None), None);
    assert_eq!(session.on_end(StreamEnd::Error("cancelled by peer".to_string())), Some(Termination::Cancelled));
    assert_eq!(session.state(), SessionState::Closed);
    assert_eq!(session.on_end(StreamEnd::Cancelled), None);
}

#[test]
fn end_before_close_keeps_its_own_kind() {
    let mut session = streaming(false);
    assert_eq!(session.on_end(StreamEnd::Completed), Some(Termination::Completed));
    assert!(!session.close());
    assert_eq!(session.state(), SessionState::Closed);
}

#[test]
fn closing_twice_after_close_changes_nothing() {
    let mut session = streaming(false);
    assert!(session.close());
    assert_eq!(session.on_end(StreamEnd::Cancelled), Some(Termination::Cancelled));
    assert!(!session.close());
    assert!(!session.close());
    assert_eq!(session.state(), SessionState::Closed);
    assert_eq!(session.on_end(StreamEnd::Completed), None);
}

#[test]
fn close_while_closing_is_a_no_op() {
    let mut session = streaming(false);
    assert!(session.close());
    assert!(!session.close());
    assert_eq!(session.state(), SessionState::Closing);
}

#[test]
fn close_on_idle_session_does_nothing() {
    let mut session = Session::new(true);
    assert!(!session.close());
    assert_eq!(session.state(), SessionState::Idle);
    assert!(session.auto_decode());
}
