use std::sync::mpsc::{channel, Receiver, Sender};

use slac::fanout::{Dispatch, DispatchAction, DispatchEvent, DispatchPhase};
use slac::message::{
    Message, MessageContentType, SendMessageInSocket, SendMessageReq, SimpleUser,
    WebSocketMessage,
};
use slac::registry::Registry;
use slac::session::{
    reader_action, writer_action, ReaderAction, ReaderEvent, Session, SessionAction,
    SessionPhase, Task, WriterAction, WriterEvent,
};

fn text(t: &str) -> SendMessageReq {
    SendMessageReq {
        sender_id: None,
        parent_msg_id: None,
        content_type: MessageContentType::Text,
        text_content: t.to_string(),
        media_url: None,
        media_metadata: None,
    }
}

fn profile(id: i64, name: &str) -> SimpleUser {
    SimpleUser {
        id,
        avatar_url: format!("http://localhost:8888/users/{}/avatar", id),
        display_name: name.to_string(),
    }
}

fn stored(id: i64, record: &slac::message::CreateMessage) -> Message {
    Message {
        id,
        channel_id: record.channel_id,
        sender_id: record.sender_id,
        parent_msg_id: record.parent_msg_id,
        content_type: record.content_type,
        text_content: record.text_content.clone(),
        media_url: record.media_url.clone(),
        media_metadata: record.media_metadata.clone(),
        created_at: 1_700_000_000_000,
        updated_at: 1_700_000_000_000,
    }
}

/// Runs a batch through the fan-out against an in-memory store, whose
/// `fail` entries refuse to persist the message of that index, and hands each
/// frame to the queues of the recipients. Returns the rows stored.
fn run_batch(
    registry: &Registry<Sender<WebSocketMessage>>,
    channel_id: i64,
    sender: i64,
    msgs: Vec<SendMessageReq>,
    members: Vec<i64>,
    profiles: Vec<SimpleUser>,
    fail: &[usize],
) -> Vec<Message> {
    let mut store: Vec<Message> = Vec::new();
    let mut d = Dispatch::new(channel_id, sender, msgs);
    let mut ev = DispatchEvent::Start;
    let mut members = Some(members);
    let mut profiles = Some(profiles);
    for _ in 0..100 {
        match d.step(ev, registry) {
            DispatchAction::ListMembers { channel_id: c } => {
                assert_eq!(c, channel_id);
                ev = DispatchEvent::MembersListed(members.take().unwrap());
            }
            DispatchAction::GetProfiles { .. } => {
                ev = DispatchEvent::ProfilesListed(profiles.take().unwrap());
            }
            DispatchAction::Persist { index, record } => {
                if fail.contains(&index) {
                    ev = DispatchEvent::PersistFailed;
                } else {
                    let row = stored(store.len() as i64 + 1, &record);
                    store.push(row.clone());
                    ev = DispatchEvent::Persisted(row);
                }
            }
            DispatchAction::Deliver { recipients, frame, .. } => {
                for r in recipients {
                    let entry = registry.lookup(r).unwrap();
                    entry.outbound.send(frame.clone()).unwrap();
                }
                ev = DispatchEvent::Delivered;
            }
            DispatchAction::Done => return store,
        }
    }
    panic!("the fan-out did not finish");
}

fn online(
    registry: &mut Registry<Sender<WebSocketMessage>>,
    user: i64,
    session: u64,
) -> Receiver<WebSocketMessage> {
    let (tx, rx) = channel();
    registry.register(user, session, tx);
    rx
}

#[test]
fn end_to_end_online_members_receive_offline_do_not() {
    let (a, b, c) = (1, 2, 3);
    let mut registry = Registry::new();
    let rx_a = online(&mut registry, a, 10);
    let rx_b = online(&mut registry, b, 11);
    let store = run_batch(
        &registry,
        7,
        a,
        vec![text("hi")],
        vec![a, b, c],
        vec![profile(a, "Alice"), profile(b, "Bob"), profile(c, "Carol")],
        &[],
    );
    let got: Vec<WebSocketMessage> = rx_b.try_iter().collect();
    assert_eq!(got.len(), 1);
    assert_eq!(got[0].text_content, "hi");
    assert_eq!(got[0].sender.id, a);
    assert_eq!(got[0].sender.display_name, "Alice");
    assert_eq!(rx_a.try_iter().count(), 1);
    assert!(!registry.is_online(c));
    assert_eq!(store.len(), 1);
    assert_eq!(store[0].channel_id, 7);
    assert_eq!(store[0].sender_id, Some(a));
}

#[test]
fn failed_persistence_skips_only_that_message() {
    let (a, b) = (1, 2);
    let mut registry = Registry::new();
    let rx_b = online(&mut registry, b, 11);
    let store = run_batch(
        &registry,
        7,
        a,
        vec![text("one"), text("two"), text("three")],
        vec![a, b],
        vec![profile(a, "Alice"), profile(b, "Bob")],
        &[1],
    );
    let texts: Vec<String> = store.iter().map(|m| m.text_content.clone()).collect();
    assert_eq!(texts, vec!["one".to_string(), "three".to_string()]);
    let got: Vec<String> = rx_b.try_iter().map(|f| f.text_content).collect();
    assert_eq!(got, vec!["one".to_string(), "three".to_string()]);
}

#[test]
fn step_sequence_for_a_failed_middle_message() {
    let registry: Registry<u8> = Registry::new();
    let mut d = Dispatch::new(7, 1, vec![text("one"), text("two"), text("three")]);
    assert!(matches!(d.step(DispatchEvent::Start, &registry), DispatchAction::ListMembers { channel_id: 7 }));
    assert!(matches!(d.step(DispatchEvent::MembersListed(vec![1]), &registry), DispatchAction::GetProfiles { .. }));
    let first = match d.step(DispatchEvent::ProfilesFailed, &registry) {
        DispatchAction::Persist { index, record } => {
            assert_eq!(index, 0);
            record
        }
        _ => panic!("expected the first message to be stored"),
    };
    assert_eq!(first.text_content, "one");
    assert!(matches!(d.step(DispatchEvent::Persisted(stored(1, &first)), &registry), DispatchAction::Deliver { index: 0, .. }));
    match d.step(DispatchEvent::Delivered, &registry) {
        DispatchAction::Persist { index, record } => {
            assert_eq!(index, 1);
            assert_eq!(record.text_content, "two");
        }
        _ => panic!("expected the second message to be stored"),
    }
    match d.step(DispatchEvent::PersistFailed, &registry) {
        DispatchAction::Persist { index, record } => {
            assert_eq!(index, 2);
            assert_eq!(record.text_content, "three");
        }
        _ => panic!("expected the third message to be stored"),
    }
    assert_eq!(d.phase(), DispatchPhase::AwaitPersist);
    assert!(matches!(d.step(DispatchEvent::PersistFailed, &registry), DispatchAction::Done));
    assert_eq!(d.phase(), DispatchPhase::Finished);
}

#[test]
fn membership_failure_aborts_the_batch() {
    let registry: Registry<u8> = Registry::new();
    let mut d = Dispatch::new(7, 1, vec![text("one")]);
    d.step(DispatchEvent::Start, &registry);
    assert!(matches!(d.step(DispatchEvent::MembersFailed, &registry), DispatchAction::Done));
    assert_eq!(d.phase(), DispatchPhase::Finished);
    assert!(matches!(d.step(DispatchEvent::Delivered, &registry), DispatchAction::Done));
}

#[test]
fn profile_failure_shows_sender_by_identity() {
    let mut registry = Registry::new();
    let rx = online(&mut registry, 2, 5);
    let mut d = Dispatch::new(7, 1, vec![text("hey")]);
    d.step(DispatchEvent::Start, &registry);
    match d.step(DispatchEvent::MembersListed(vec![1, 2]), &registry) {
        DispatchAction::GetProfiles { user_ids } => assert_eq!(user_ids, vec![1, 2]),
        _ => panic!("expected a profile lookup"),
    }
    let record = match d.step(DispatchEvent::ProfilesFailed, &registry) {
        DispatchAction::Persist { record, .. } => record,
        _ => panic!("expected a store request"),
    };
    match d.step(DispatchEvent::Persisted(stored(9, &record)), &registry) {
        DispatchAction::Deliver { recipients, frame, .. } => {
            assert_eq!(recipients, vec![2]);
            assert_eq!(frame.sender, SimpleUser { id: 1, avatar_url: String::new(), display_name: String::new() });
            registry.lookup(2).unwrap().outbound.send(frame).unwrap();
        }
        _ => panic!("expected a delivery"),
    }
    assert_eq!(rx.try_iter().count(), 1);
}

#[test]
fn sender_profile_is_first_match() {
    let registry: Registry<u8> = Registry::new();
    let mut d = Dispatch::new(3, 2, vec![text("x")]);
    d.step(DispatchEvent::Start, &registry);
    d.step(DispatchEvent::MembersListed(vec![1, 2]), &registry);
    let record = match d.step(
        DispatchEvent::ProfilesListed(vec![profile(1, "Ann"), profile(2, "Ben"), profile(2, "Other")]),
        &registry,
    ) {
        DispatchAction::Persist { record, .. } => record,
        _ => panic!("expected a store request"),
    };
    match d.step(DispatchEvent::Persisted(stored(4, &record)), &registry) {
        DispatchAction::Deliver { recipients, frame, .. } => {
            assert!(recipients.is_empty());
            assert_eq!(frame.sender, profile(2, "Ben"));
        }
        _ => panic!("expected a delivery"),
    }
}

#[test]
fn empty_batch_finishes_after_profiles() {
    let registry: Registry<u8> = Registry::new();
    let mut d = Dispatch::new(3, 2, vec![]);
    d.step(DispatchEvent::Start, &registry);
    d.step(DispatchEvent::MembersListed(vec![]), &registry);
    assert!(matches!(d.step(DispatchEvent::ProfilesListed(vec![]), &registry), DispatchAction::Done));
}

#[test]
fn record_carries_connection_sender_and_channel() {
    let registry: Registry<u8> = Registry::new();
    let mut m = text("reply");
    m.sender_id = Some(99);
    m.parent_msg_id = Some(5);
    m.content_type = MessageContentType::Image;
    m.media_url = Some("http://x/y.png".to_string());
    let mut d = Dispatch::new(4, 8, vec![m]);
    d.step(DispatchEvent::Start, &registry);
    d.step(DispatchEvent::MembersListed(vec![8]), &registry);
    match d.step(DispatchEvent::ProfilesListed(vec![profile(8, "Eve")]), &registry) {
        DispatchAction::Persist { index, record } => {
            assert_eq!(index, 0);
            assert_eq!(record.channel_id, 4);
            assert_eq!(record.sender_id, Some(8));
            assert_eq!(record.parent_msg_id, Some(5));
            assert_eq!(record.content_type, MessageContentType::Image);
            assert_eq!(record.media_url, Some("http://x/y.png".to_string()));
        }
        _ => panic!("expected a store request"),
    }
}

#[test]
fn second_registration_wins() {
    let mut registry: Registry<&str> = Registry::new();
    registry.register(1, 100, "first");
    registry.register(1, 101, "second");
    let e = registry.lookup(1).unwrap();
    assert_eq!(e.outbound, "second");
    assert_eq!(e.session, 101);
    assert!(registry.lookup(2).is_none());
}

#[test]
fn release_keeps_a_newer_session() {
    let mut registry: Registry<&str> = Registry::new();
    registry.register(1, 100, "first");
    registry.register(1, 101, "second");
    assert!(!registry.release(1, 100));
    assert_eq!(registry.lookup(1).unwrap().outbound, "second");
    assert!(registry.release(1, 101));
    assert!(!registry.is_online(1));
    assert!(!registry.release(1, 101));
}

#[test]
fn online_members_keeps_order_and_drops_offline() {
    let mut registry: Registry<u8> = Registry::new();
    registry.register(5, 1, 0);
    registry.register(2, 2, 0);
    assert_eq!(registry.online_members(&vec![1, 2, 3, 4, 5]), vec![2, 5]);
    assert_eq!(registry.online_members(&vec![]), Vec::<i64>::new());
}

#[test]
fn malformed_frame_does_not_stop_reader() {
    assert!(matches!(reader_action(ReaderEvent::Malformed), ReaderAction::Continue));
    let batch = SendMessageInSocket { channel_id: 7, msgs: vec![text("after")] };
    match reader_action(ReaderEvent::Batch(batch.clone())) {
        ReaderAction::Dispatch(b) => assert_eq!(b, batch),
        _ => panic!("expected the batch to be dispatched"),
    }
    assert!(matches!(reader_action(ReaderEvent::Other), ReaderAction::Continue));
    assert!(matches!(reader_action(ReaderEvent::Ended), ReaderAction::Stop));
    assert!(matches!(reader_action(ReaderEvent::Failed), ReaderAction::Stop));
}

#[test]
fn writer_stops_on_failure() {
    assert!(matches!(writer_action(WriterEvent::Queued("f".to_string())), WriterAction::Send(f) if f == "f"));
    assert!(matches!(writer_action(WriterEvent::Sent), WriterAction::Continue));
    assert!(matches!(writer_action(WriterEvent::SendFailed), WriterAction::Stop));
    assert!(matches!(writer_action(WriterEvent::QueueClosed), WriterAction::Stop));
}

#[test]
fn session_lifecycle_cancels_sibling_and_releases_entry() {
    let mut registry: Registry<u8> = Registry::new();
    let mut s = Session::new(4, 40);
    assert_eq!(s.phase(), SessionPhase::Connecting);
    s.activate(&mut registry, 1);
    assert_eq!(s.phase(), SessionPhase::Active);
    assert!(registry.is_online(4));
    assert_eq!(s.task_ended(Task::Writer, &mut registry), SessionAction::Cancel(Task::Reader));
    assert_eq!(s.phase(), SessionPhase::Closing { first: Task::Writer });
    assert_eq!(s.task_ended(Task::Writer, &mut registry), SessionAction::Ignore);
    assert!(registry.is_online(4));
    assert_eq!(s.task_ended(Task::Reader, &mut registry), SessionAction::Close);
    assert_eq!(s.phase(), SessionPhase::Closed);
    assert!(!registry.is_online(4));
}

#[test]
fn closing_old_session_keeps_new_entry() {
    let mut registry: Registry<u8> = Registry::new();
    let mut old = Session::new(4, 40);
    old.activate(&mut registry, 1);
    let mut new = Session::new(4, 41);
    new.activate(&mut registry, 2);
    old.task_ended(Task::Reader, &mut registry);
    assert_eq!(old.task_ended(Task::Writer, &mut registry), SessionAction::Close);
    assert_eq!(registry.lookup(4).unwrap().outbound, 2);
    assert_eq!(new.user_id(), 4);
}

#[test]
fn test_websocket_message_output() {
    let sender = SimpleUser {
        id: 1,
        avatar_url: "http://localhost:8888/users/1/avatar".to_string(),
        display_name: "Alice".to_string(),
    };
    let row = Message {
        id: 1,
        channel_id: 1,
        sender_id: Some(1),
        parent_msg_id: None,
        content_type: MessageContentType::Text,
        text_content: "How do you do".to_string(),
        media_url: None,
        media_metadata: None,
        created_at: 0,
        updated_at: 0,
    };
    let msg = WebSocketMessage::for_stored(sender.duplicate(), row);
    assert_eq!(msg.sender, sender);
    assert_eq!(msg.parent_msg_id, None);
    assert_eq!(msg.content_type, MessageContentType::Text);
    assert_eq!(msg.text_content, "How do you do");
    assert_eq!(msg.media_url, None);
    assert_eq!(msg.media_metadata, None);
}

#[test]
fn content_type_names() {
    assert_eq!(MessageContentType::Text.as_str(), "text");
    assert_eq!(MessageContentType::System.as_str(), "system");
    assert_eq!(MessageContentType::from_name("video"), Some(MessageContentType::Video));
    assert_eq!(MessageContentType::from_name("file"), Some(MessageContentType::File));
    assert_eq!(MessageContentType::from_name("image"), Some(MessageContentType::Image));
    assert_eq!(MessageContentType::from_name("Text"), None);
    assert_eq!(MessageContentType::from_name(""), None);
}
