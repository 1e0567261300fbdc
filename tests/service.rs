use amnesia_backend::reminder::Reminder;
use amnesia_backend::service::{
    begin_create, begin_lookup, complete_create, complete_lookup, StatusCode,
};
use amnesia_backend::stream::{Move, StoreEvent, StreamAction, StreamProducer};
use amnesia_backend::time::UtcTime;
use amnesia_backend::urgency::Urgency;
use amnesia_backend::wire::{CreateReminderRequest, GetReminderByIdRequest, NewReminderDto};
use prost_types::Timestamp;

fn reminder(title: &str) -> Reminder {
    Reminder::new(
        title.to_string(),
        None,
        Some(Urgency::Low),
        UtcTime::from_timestamp(1_735_689_600, 0).unwrap(),
    )
}

#[test]
fn create_without_payload_is_aborted() {
    let s = begin_create(CreateReminderRequest { reminder: None }).unwrap_err();
    assert_eq!(s.code, StatusCode::Aborted);
    assert_eq!(s.message, "No Data for creation");
}

#[test]
fn create_with_bad_deadline_is_aborted_with_detail() {
    let req = CreateReminderRequest {
        reminder: Some(NewReminderDto {
            title: "t".to_string(),
            description: None,
            urgency: 1,
            deadline: None,
        }),
    };
    let s = begin_create(req).unwrap_err();
    assert_eq!(s.code, StatusCode::Aborted);
    assert_eq!(s.message, "Failed to convert timestamp");
}

#[test]
fn create_pay_rent_end_to_end() {
    let req = CreateReminderRequest {
        reminder: Some(NewReminderDto {
            title: "Pay rent".to_string(),
            description: None,
            urgency: 1,
            deadline: Some(Timestamp { seconds: 1_735_689_600, nanos: 0 }),
        }),
    };
    let rem = begin_create(req).unwrap();
    let resp = complete_create(rem, Ok(())).unwrap();
    assert!(resp.created);
    let d = resp.reminder.unwrap();
    assert_eq!(d.title, "Pay rent");
    assert_eq!(d.urgency, Urgency::High.ordinal());
    assert!(d.active);
    assert_eq!(d.id.len(), 36);
    assert_eq!(d.deadline, Some(Timestamp { seconds: 1_735_689_600, nanos: 0 }));
    assert!(Reminder::try_from_dto(d).is_ok());
}

#[test]
fn create_store_failure_is_aborted() {
    let s = complete_create(reminder("x"), Err("connection reset".to_string())).unwrap_err();
    assert_eq!(s.code, StatusCode::Aborted);
    assert_eq!(s.message, "connection reset");
}

#[test]
fn lookup_outcomes() {
    let bad = begin_lookup(&GetReminderByIdRequest { id: "nope".to_string() }).unwrap_err();
    assert_eq!(bad.code, StatusCode::InvalidArgument);
    let id = begin_lookup(&GetReminderByIdRequest {
        id: "936da01f-9abd-4d9d-80c7-02af85c822a8".to_string(),
    })
    .unwrap();
    assert_eq!(id, 0x936da01f_9abd_4d9d_80c7_02af85c822a8);
    let missing = complete_lookup(Ok(None)).unwrap_err();
    assert_eq!(missing.code, StatusCode::NotFound);
    assert_eq!(missing.message, "No reminder with that id");
    let failed = complete_lookup(Err("timeout".to_string())).unwrap_err();
    assert_eq!(failed.code, StatusCode::Aborted);
    assert_eq!(failed.message, "timeout");
    let found = complete_lookup(Ok(Some(reminder("found")))).unwrap();
    assert_eq!(found.reminder.unwrap().title, "found");
}

#[test]
fn stream_drains_every_entity_then_closes() {
    let store = vec![reminder("a"), reminder("b"), reminder("c")];
    let mut p = StreamProducer::new(4);
    let mut sent = Vec::new();
    for r in store {
        match p.step(StoreEvent::Item(r)) {
            StreamAction::Send(d) => sent.push(d),
            other => panic!("unexpected {:?}", other),
        }
    }
    assert!(matches!(p.step(StoreEvent::Exhausted), StreamAction::Close));
    assert!(!p.open());
    assert_eq!(sent.len(), 3);
    let titles: Vec<String> = sent.iter().map(|d| d.title.clone()).collect();
    assert_eq!(titles, vec!["a", "b", "c"]);
    for d in sent {
        assert!(Reminder::try_from_dto(d).is_ok());
    }
}

#[test]
fn empty_store_closes_without_messages() {
    let mut p = StreamProducer::new(4);
    assert!(p.open());
    assert!(matches!(p.step(StoreEvent::Exhausted), StreamAction::Close));
    assert!(matches!(p.step(StoreEvent::Item(reminder("late"))), StreamAction::Stop));
}

#[test]
fn store_failure_ends_stream_with_error() {
    let mut p = StreamProducer::new(4);
    assert!(matches!(p.step(StoreEvent::Item(reminder("a"))), StreamAction::Send(_)));
    match p.step(StoreEvent::Failed("cursor lost".to_string())) {
        StreamAction::SendError(s) => {
            assert_eq!(s.code, StatusCode::Aborted);
            assert_eq!(s.message, "cursor lost");
        }
        other => panic!("unexpected {:?}", other),
    }
    assert!(matches!(p.step(StoreEvent::Exhausted), StreamAction::Stop));
}

#[test]
fn departed_consumer_stops_producer() {
    let mut p = StreamProducer::new(4);
    assert!(matches!(p.step(StoreEvent::ConsumerGone), StreamAction::Stop));
    assert!(!p.open());
}

#[test]
fn producer_pulls_only_while_relay_has_room() {
    let mut p = StreamProducer::new(2);
    assert_eq!(p.capacity(), 2);
    assert_eq!(p.next_move(0), Move::Pull);
    assert_eq!(p.next_move(1), Move::Pull);
    assert_eq!(p.next_move(2), Move::WaitForSpace);
    assert_eq!(p.next_move(1000), Move::WaitForSpace);
    assert!(matches!(p.step(StoreEvent::Exhausted), StreamAction::Close));
    assert_eq!(p.next_move(0), Move::Done);
}

#[test]
fn slow_consumer_never_sees_more_than_capacity_buffered() {
    let mut p = StreamProducer::new(3);
    let mut buffered: usize = 0;
    let mut max_seen: usize = 0;
    let mut pulled = 0;
    let mut tick = 0;
    while pulled < 50 {
        tick += 1;
        match p.next_move(buffered) {
            Move::Pull => {
                assert!(matches!(p.step(StoreEvent::Item(reminder("n"))), StreamAction::Send(_)));
                buffered += 1;
                pulled += 1;
            }
            Move::WaitForSpace => {}
            Move::Done => unreachable!(),
        }
        if tick % 5 == 0 && buffered > 0 {
            buffered -= 1;
        }
        max_seen = max_seen.max(buffered);
    }
    assert_eq!(max_seen, 3);
}
