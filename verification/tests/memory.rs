use mock_instant::global::MockClock;
use msg_q::errors::{CreateMessageError, GetMessageError, QueueSummaryError};
use msg_q::memory::Memory;
use msg_q::message::{CreateMessageRequest, Message, QueueName, QueueSummary};
use msg_q::options::GetMessageOptions;
use msg_q::params::Parameters;
use msg_q::time::Instant;
use std::collections::HashMap;
use std::time::Duration;
use uuid::Uuid;

fn parameters(json: &str) -> Parameters {
    let map: HashMap<String, String> = serde_json::from_str(json).unwrap();
    let mut params = Parameters::new();
    for (key, value) in map {
        params.insert(key, value);
    }
    params
}

fn gmo(json: &str) -> GetMessageOptions {
    GetMessageOptions::try_from(&parameters(json)).unwrap()
}

fn queue(name: &str) -> QueueName {
    QueueName::try_from(name).unwrap()
}

fn now() -> Instant {
    Instant::from_nanos(MockClock::time().as_nanos())
}

fn put(
    store: &mut Memory,
    queue_name: &str,
    data: &str,
    cid: Option<&str>,
    expiry: Option<u64>,
) -> Result<Message, CreateMessageError> {
    let req = CreateMessageRequest::new(
        data.to_string(),
        cid.map(|s| Uuid::try_parse(s).unwrap().as_u128()),
        expiry,
    );
    store.create_message_with(queue(queue_name), &req, Uuid::new_v4().as_u128(), now())
}

fn get(store: &mut Memory, gmo: GetMessageOptions) -> Result<Message, GetMessageError> {
    store.get_message_at(gmo, now())
}

fn depth(store: &Memory, queue_name: &str) -> usize {
    let gmo = gmo(&format!(r#"{{"action":"info","queue_name":"{}"}}"#, queue_name));
    let summary = store.get_info(gmo).unwrap();
    summary.depth()
}

fn id(msg: &Message) -> String {
    Uuid::from_u128(msg.mid()).to_string()
}

#[test]
fn test_create_store() {
    let store = Memory::new();
    assert!(store.queue_list().is_ok(), "{:?}", store);
}

#[test]
fn test_empty_store() {
    let store = Memory::new();
    let queue_list = store.queue_list().unwrap();
    assert!(queue_list.0.is_empty(), "{:?}", queue_list);

    let gmo = gmo(r#"{"action":"info","queue_name":"test"}"#);
    let summary = store.get_info(gmo);
    assert!(summary.is_err(), "{:?}", summary);
    assert_eq!(summary, Err(QueueSummaryError::NoQueue("test".to_string())));
}

#[test]
fn test_create_message() {
    let mut store = Memory::new();
    let req = CreateMessageRequest::new("msg1".to_string(), None, None);

    let msg1 = store.create_message(queue("queue1"), &req).unwrap();

    assert_eq!(msg1.content(), &"msg1".to_string());
    assert_eq!(msg1.cursor(), 1);
    let msg2 = store.create_message(queue("queue1"), &req).unwrap();
    assert_eq!(msg2.cursor(), 2);

    let queue_list = store.queue_list().unwrap();
    assert_eq!(queue_list.0.len(), 1, "{:?}", queue_list);

    let gmo = gmo(r#"{"action":"info","queue_name":"queue1"}"#);
    let summary = store.get_info(gmo);
    assert!(summary.is_ok(), "{:?}", summary);
    let summary = summary.unwrap();
    assert_eq!(summary, QueueSummary::new(&queue("queue1"), 2));
}

#[test]
fn test_browse_message() {
    let mut store = Memory::new();
    let msg1 = put(&mut store, "queue1", "msg1", None, None).unwrap();
    let msg2 = put(&mut store, "queue1", "msg2", None, None).unwrap();
    let peek = gmo(r#"{"action":"peek","queue_name":"queue1"}"#);
    let msg = get(&mut store, peek.clone());
    assert!(msg.is_ok());
    let msg = msg.unwrap();
    assert_eq!(msg, msg1);

    let msg = get(&mut store, peek.clone());
    assert!(msg.is_ok());
    let msg = msg.unwrap();
    assert_eq!(msg, msg1);

    let peek = gmo(&format!(
        r#"{{"action":"peek","queue_name":"queue1","id":"{}"}}"#,
        id(&msg2)
    ));
    let msg = get(&mut store, peek.clone());
    assert!(msg.is_ok());
    let msg = msg.unwrap();
    assert_eq!(msg, msg2);
}

#[test]
fn test_get_message() {
    let mut store = Memory::new();
    let msg1 = put(&mut store, "queue1", "msg1", None, None).unwrap();
    let msg2 = put(&mut store, "queue1", "msg2", None, None).unwrap();
    assert_eq!(depth(&store, "queue1"), 2);
    let take = gmo(r#"{"action":"take","queue_name":"queue1"}"#);
    let msg = get(&mut store, take.clone());
    assert!(msg.is_ok());
    let msg = msg.unwrap();
    assert_eq!(msg, msg1);

    let msg = get(&mut store, take.clone());
    assert!(msg.is_ok());
    let msg = msg.unwrap();
    assert_eq!(msg, msg2);

    assert_eq!(depth(&store, "queue1"), 0)
}

#[test]
fn test_get_mid_message() {
    let mut store = Memory::new();
    let _msg1 = put(&mut store, "queue1", "msg1", None, None).unwrap();
    let msg2 = put(&mut store, "queue1", "msg2", None, None).unwrap();
    let _msg3 = put(&mut store, "queue1", "msg3", None, None).unwrap();
    assert_eq!(depth(&store, "queue1"), 3);
    let take = gmo(&format!(
        r#"{{"action":"take","queue_name":"queue1","id":"{}"}}"#,
        id(&msg2)
    ));
    let msg = get(&mut store, take.clone());
    assert!(msg.is_ok());
    let msg = msg.unwrap();
    assert_eq!(msg, msg2);
    assert_eq!(depth(&store, "queue1"), 2);
    let msg = get(&mut store, take.clone());
    assert!(msg.is_err());
}

#[test]
fn test_browse_mid_message() {
    let mut store = Memory::new();
    let _msg1 = put(&mut store, "queue1", "msg1", None, None).unwrap();
    let msg2 = put(&mut store, "queue1", "msg2", None, None).unwrap();
    let _msg3 = put(&mut store, "queue1", "msg3", None, None).unwrap();
    assert_eq!(depth(&store, "queue1"), 3);
    let peek = gmo(&format!(
        r#"{{"action":"peek","queue_name":"queue1","id":"{}"}}"#,
        id(&msg2)
    ));
    let msg = get(&mut store, peek.clone());
    assert!(msg.is_ok());
    let msg = msg.unwrap();
    assert_eq!(msg, msg2);
    assert_eq!(depth(&store, "queue1"), 3);
    let msg = get(&mut store, peek.clone());
    assert!(msg.is_ok());
}

#[test]
fn test_browse_cid_message() {
    let mut store = Memory::new();
    let cid = Uuid::new_v4().to_string();
    let _msg1 = put(&mut store, "queue1", "msg1", None, None).unwrap();
    let msg2 = put(&mut store, "queue1", "msg2", Some(&cid), None).unwrap();
    let _msg3 = put(&mut store, "queue1", "msg3", None, None).unwrap();
    assert_eq!(depth(&store, "queue1"), 3);
    let peek = gmo(&format!(
        r#"{{"action":"peek","queue_name":"queue1","correlation_id":"{}"}}"#,
        cid
    ));
    let msg = get(&mut store, peek.clone());
    assert!(msg.is_ok(), "{:?}", msg);
    let msg = msg.unwrap();
    assert_eq!(msg, msg2);
    assert_eq!(depth(&store, "queue1"), 3);
}

#[test]
fn test_get_cid_message() {
    let mut store = Memory::new();
    let cid = Uuid::new_v4().to_string();
    let _msg1 = put(&mut store, "queue1", "msg1", None, None).unwrap();
    let msg2 = put(&mut store, "queue1", "msg2", Some(&cid), None).unwrap();
    let _msg3 = put(&mut store, "queue1", "msg3", None, None).unwrap();
    assert_eq!(depth(&store, "queue1"), 3);
    let take = gmo(&format!(
        r#"{{"action":"take","queue_name":"queue1","correlation_id":"{}"}}"#,
        cid
    ));
    let msg = get(&mut store, take.clone());
    assert!(msg.is_ok(), "{:?}", msg);
    let msg = msg.unwrap();
    assert_eq!(msg, msg2);
    assert_eq!(depth(&store, "queue1"), 2);
}

#[test]
fn test_confirm_message() {
    let mut store = Memory::new();
    let _msg1 = put(&mut store, "queue1", "msg1", None, None).unwrap();
    let msg2 = put(&mut store, "queue1", "msg2", None, None).unwrap();
    let _msg3 = put(&mut store, "queue1", "msg3", None, None).unwrap();
    assert_eq!(depth(&store, "queue1"), 3);
    let lease = gmo(&format!(
        r#"{{"action":"lease","queue_name":"queue1","id":"{}","lease_seconds":"10"}}"#,
        id(&msg2)
    ));
    let msg = get(&mut store, lease.clone());
    assert!(msg.is_ok());
    let msg = msg.unwrap();
    assert_eq!(msg.content(), &"msg2".to_string());
    assert_eq!(depth(&store, "queue1"), 3);
    let fail = get(&mut store, lease.clone());
    assert!(fail.is_err());
    let ack = gmo(&format!(
        r#"{{"action":"ack","queue_name":"queue1","id":"{}"}}"#,
        id(&msg)
    ));
    let msg = get(&mut store, ack.clone());
    assert!(msg.is_ok());
    assert_eq!(depth(&store, "queue1"), 2);
}

#[test]
fn test_return_message() {
    let mut store = Memory::new();
    let _msg1 = put(&mut store, "queue1", "msg1", None, None).unwrap();
    let msg2 = put(&mut store, "queue1", "msg2", None, None).unwrap();
    let _msg3 = put(&mut store, "queue1", "msg3", None, None).unwrap();
    assert_eq!(depth(&store, "queue1"), 3);
    let lease = gmo(&format!(
        r#"{{"action":"lease","queue_name":"queue1","id":"{}","lease_seconds":"10"}}"#,
        id(&msg2)
    ));
    let msg = get(&mut store, lease.clone());
    assert!(msg.is_ok());
    let msg = msg.unwrap();
    assert_eq!(msg.content(), &"msg2".to_string());
    assert_eq!(depth(&store, "queue1"), 3);
    let fail = get(&mut store, lease.clone());
    assert!(fail.is_err());
    let release = gmo(&format!(
        r#"{{"action":"release","queue_name":"queue1","id":"{}"}}"#,
        id(&msg)
    ));
    let msg = get(&mut store, release.clone());
    assert!(msg.is_ok());
    assert_eq!(depth(&store, "queue1"), 3);
    let msg = get(&mut store, lease.clone());
    assert!(msg.is_ok());
    let msg = msg.unwrap();
    assert_eq!(msg.content(), &"msg2".to_string());
}

#[test]
fn test_expired_reservation() {
    let mut store = Memory::new();
    let _msg1 = put(&mut store, "queue1", "msg1", None, None).unwrap();
    let msg2 = put(&mut store, "queue1", "msg2", None, None).unwrap();
    let msg3 = put(&mut store, "queue1", "msg3", None, None).unwrap();
    assert_eq!(depth(&store, "queue1"), 3);
    let lease1 = gmo(&format!(
        r#"{{"action":"lease","queue_name":"queue1","id":"{}","lease_seconds":"10"}}"#,
        id(&msg2)
    ));
    let lease2 = gmo(&format!(
        r#"{{"action":"lease","queue_name":"queue1","id":"{}","lease_seconds":"20"}}"#,
        id(&msg3)
    ));
    let peek1 = gmo(&format!(
        r#"{{"action":"peek","queue_name":"queue1","id":"{}"}}"#,
        id(&msg2)
    ));
    let peek2 = gmo(&format!(
        r#"{{"action":"peek","queue_name":"queue1","id":"{}"}}"#,
        id(&msg3)
    ));
    let msg_r1 = get(&mut store, lease1.clone());
    let msg_r2 = get(&mut store, lease2.clone());
    assert!(msg_r1.is_ok());
    assert!(msg_r2.is_ok());
    let msg_r1 = msg_r1.unwrap();
    assert_eq!(msg_r1.content(), &"msg2".to_string());
    assert_eq!(depth(&store, "queue1"), 3);

    let fail = get(&mut store, peek1.clone());
    assert!(fail.is_err());
    let fail = get(&mut store, peek2.clone());
    assert!(fail.is_err());
    MockClock::advance(Duration::from_secs(15));

    let msg = get(&mut store, peek1.clone());
    assert!(msg.is_ok());
    let fail = get(&mut store, peek2.clone());
    assert!(fail.is_err());
    assert_eq!(depth(&store, "queue1"), 3);
}

#[test]
fn test_browse_after() {
    let mut store = Memory::new();
    let req = CreateMessageRequest::new("msg1".to_string(), None, None);
    let msg1 = store.create_message(queue("queue1"), &req.clone()).unwrap();
    let msg2 = store.create_message(queue("queue1"), &req).unwrap();
    let peek = gmo(r#"{"action":"peek","queue_name":"queue1"}"#);
    let msg_r1 = store.get_message(peek.clone());
    assert!(msg_r1.is_ok());
    let msg_r1 = msg_r1.unwrap();
    assert_eq!(msg_r1, msg1);

    let peek = gmo(&format!(
        r#"{{"action":"peek","queue_name":"queue1","after":"{}"}}"#,
        msg_r1.cursor()
    ));
    let msg_r2 = store.get_message(peek.clone());
    assert!(msg_r2.is_ok());
    let msg_r2 = msg_r2.unwrap();
    assert_eq!(msg_r2, msg2);
}

#[test]
fn test_get_after() {
    let mut store = Memory::new();
    let msg1 = put(&mut store, "queue1", "msg1", None, None).unwrap();
    let msg2 = put(&mut store, "queue1", "msg2", None, None).unwrap();
    let peek = gmo(r#"{"action":"peek","queue_name":"queue1"}"#);
    let msg_r1 = get(&mut store, peek.clone());
    assert!(msg_r1.is_ok());
    let msg_r1 = msg_r1.unwrap();
    assert_eq!(msg_r1, msg1);

    let take = gmo(&format!(
        r#"{{"action":"take","queue_name":"queue1","after":"{}"}}"#,
        msg_r1.cursor()
    ));
    let msg_r2 = get(&mut store, take.clone());
    assert!(msg_r2.is_ok());
    let msg_r2 = msg_r2.unwrap();
    assert_eq!(msg_r2, msg2);
}

#[test]
fn test_expired_messages() {
    let mut store = Memory::new();
    let _msg1 = put(&mut store, "queue1", "msg1", None, None).unwrap();
    let _msg2 = put(&mut store, "queue1", "msg2", None, Some(10)).unwrap();
    let _msg3 = put(&mut store, "queue1", "msg3", None, None).unwrap();
    assert_eq!(depth(&store, "queue1"), 3);
    MockClock::advance(Duration::from_secs(15));
    assert_eq!(depth(&store, "queue1"), 3);
    let _msg4 = put(&mut store, "queue1", "msg4", None, None).unwrap();
    assert_eq!(depth(&store, "queue1"), 3);
}
