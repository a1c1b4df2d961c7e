use msg_q::errors::{CreateMessageError, GetMessageError, QueueSummaryError};
use msg_q::memory::{Memory, Queue};
use msg_q::message::{
    CreateMessageRequest, Expiry, Message, QueueList, QueueName, QueueSummary, Reservation,
};
use msg_q::options::{GetMessageAction, GetMessageOptions};
use msg_q::ports::{MessageRepository, MessageService};
use msg_q::service::Service;
use msg_q::time::Instant;

fn at(seconds: u128) -> Instant {
    Instant::from_nanos(seconds * 1_000_000_000)
}

fn name(text: &str) -> QueueName {
    QueueName::try_from(text).unwrap()
}

fn request(
    queue: &str,
    action: GetMessageAction,
    mid: Option<u128>,
    lease: Option<u64>,
) -> GetMessageOptions {
    GetMessageOptions::new(name(queue), action, mid, None, lease, None, None).unwrap()
}

fn peek(queue: &str, mid: Option<u128>) -> GetMessageOptions {
    request(queue, GetMessageAction::Browse, mid, None)
}

fn take(queue: &str, mid: Option<u128>) -> GetMessageOptions {
    request(queue, GetMessageAction::Get, mid, None)
}

fn lease(queue: &str, mid: Option<u128>, seconds: u64) -> GetMessageOptions {
    request(queue, GetMessageAction::Reserve, mid, Some(seconds))
}

fn ack(queue: &str, mid: u128) -> GetMessageOptions {
    request(queue, GetMessageAction::Confirm, Some(mid), None)
}

fn release(queue: &str, mid: u128) -> GetMessageOptions {
    request(queue, GetMessageAction::Return, Some(mid), None)
}

fn info(queue: &str) -> GetMessageOptions {
    request(queue, GetMessageAction::Query, None, None)
}

fn put(store: &mut Memory, queue: &str, content: &str, mid: u128, now: Instant) -> Message {
    let req = CreateMessageRequest::new(content.to_string(), None, None);
    store.create_message_with(name(queue), &req, mid, now).unwrap()
}

fn put_for(
    store: &mut Memory,
    queue: &str,
    content: &str,
    mid: u128,
    seconds: u64,
    now: Instant,
) -> Message {
    let req = CreateMessageRequest::new(content.to_string(), None, Some(seconds));
    store.create_message_with(name(queue), &req, mid, now).unwrap()
}

fn depth(store: &Memory, queue: &str) -> usize {
    store.get_info(info(queue)).unwrap().depth()
}

fn no_message(text: &str) -> Result<Message, GetMessageError> {
    Err(GetMessageError::NoMessage(text.to_string()))
}

#[test]
fn two_messages_go_in_and_come_out_in_order() {
    let mut store = Memory::new();
    let m1 = put(&mut store, "q1", "m1", 1, at(0));
    let m2 = put(&mut store, "q1", "m2", 2, at(0));
    assert_eq!(store.queue_list(), Ok(QueueList(vec!["q1".to_string()])));
    assert_eq!(depth(&store, "q1"), 2);

    let first = store.get_message_at(take("q1", None), at(0)).unwrap();
    assert_eq!(first, m1);
    assert_eq!(first.content(), "m1");
    assert_eq!(first.cursor(), 1);
    let second = store.get_message_at(take("q1", None), at(0)).unwrap();
    assert_eq!(second, m2);
    assert_eq!(second.content(), "m2");
    assert_eq!(second.cursor(), 2);
    assert_eq!(depth(&store, "q1"), 0);
    assert_eq!(store.queue_list(), Ok(QueueList(vec!["q1".to_string()])));
    assert_eq!(store.get_message_at(take("q1", None), at(0)), no_message("q1"));
}

#[test]
fn a_lease_lapses_after_its_time() {
    let mut store = Memory::new();
    put(&mut store, "q1", "m1", 1, at(0));
    put(&mut store, "q1", "m2", 2, at(0));

    let held = store.get_message_at(lease("q1", Some(2), 10), at(0)).unwrap();
    assert_eq!(held.content(), "m2");
    assert_eq!(held.reservation(), Reservation::Until(at(10)));
    assert_eq!(
        store.get_message_at(lease("q1", Some(2), 10), at(0)),
        no_message("q1")
    );
    assert_eq!(store.get_message_at(take("q1", Some(2)), at(0)), no_message("q1"));
    assert_eq!(store.get_message_at(peek("q1", Some(2)), at(9)), no_message("q1"));

    let seen = store.get_message_at(peek("q1", Some(2)), at(15)).unwrap();
    assert_eq!(seen.content(), "m2");
    assert_eq!(seen, held);
    assert!(store.get_message_at(peek("q1", Some(2)), at(10)).is_ok());
}

#[test]
fn an_ack_needs_a_lease() {
    let mut store = Memory::new();
    put(&mut store, "q1", "m1", 1, at(0));
    put(&mut store, "q1", "m2", 2, at(0));

    assert_eq!(store.get_message_at(ack("q1", 2), at(0)), no_message("q1"));
    assert_eq!(depth(&store, "q1"), 2);

    store.get_message_at(lease("q1", Some(2), 10), at(0)).unwrap();
    let before = depth(&store, "q1");
    let acked = store.get_message_at(ack("q1", 2), at(5)).unwrap();
    assert_eq!(acked.content(), "m2");
    assert_eq!(depth(&store, "q1"), before - 1);
    assert_eq!(store.get_message_at(take("q1", Some(2)), at(5)), no_message("q1"));
    assert_eq!(store.get_message_at(take("q1", Some(2)), at(50)), no_message("q1"));
}

#[test]
fn an_ack_comes_too_late_after_the_lease() {
    let mut store = Memory::new();
    put(&mut store, "q1", "m1", 1, at(0));
    store.get_message_at(lease("q1", Some(1), 10), at(0)).unwrap();
    assert_eq!(store.get_message_at(ack("q1", 1), at(10)), no_message("q1"));
    assert_eq!(store.get_message_at(release("q1", 1), at(11)), no_message("q1"));
    assert_eq!(depth(&store, "q1"), 1);
}

#[test]
fn places_count_up_in_each_queue_by_itself() {
    let mut store = Memory::new();
    let mut mid = 0;
    for expected in 1..=5usize {
        mid += 1;
        assert_eq!(put(&mut store, "a", "x", mid, at(0)).cursor(), expected);
        if expected % 2 == 1 {
            mid += 1;
            assert_eq!(
                put(&mut store, "b", "y", mid, at(0)).cursor(),
                (expected + 1) / 2
            );
        }
    }
    store.get_message_at(take("a", None), at(0)).unwrap();
    store.get_message_at(take("a", None), at(0)).unwrap();
    assert_eq!(put(&mut store, "a", "x", 100, at(0)).cursor(), 6);
    assert_eq!(put(&mut store, "c", "z", 101, at(0)).cursor(), 1);
    assert_eq!(
        store.queue_list(),
        Ok(QueueList(vec![
            "a".to_string(),
            "b".to_string(),
            "c".to_string()
        ]))
    );
}

#[test]
fn places_are_not_handed_out_twice_after_a_sweep() {
    let mut store = Memory::new();
    assert_eq!(put_for(&mut store, "a", "x", 1, 1, at(0)).cursor(), 1);
    assert_eq!(put_for(&mut store, "a", "x", 2, 1, at(0)).cursor(), 2);
    assert_eq!(put(&mut store, "a", "x", 3, at(5)).cursor(), 3);
    assert_eq!(depth(&store, "a"), 1);
}

#[test]
fn the_oldest_available_message_is_selected() {
    let mut store = Memory::new();
    put_for(&mut store, "q", "expires", 1, 5, at(0));
    put(&mut store, "q", "held", 2, at(0));
    put(&mut store, "q", "free", 3, at(0));
    put(&mut store, "q", "younger", 4, at(0));
    store.get_message_at(lease("q", Some(2), 100), at(0)).unwrap();

    assert_eq!(
        store.get_message_at(peek("q", None), at(1)).unwrap().content(),
        "expires"
    );
    assert_eq!(
        store.get_message_at(peek("q", None), at(5)).unwrap().content(),
        "free"
    );
    assert_eq!(
        store.get_message_at(lease("q", None, 1), at(5)).unwrap().content(),
        "free"
    );
    assert_eq!(
        store.get_message_at(take("q", None), at(5)).unwrap().content(),
        "younger"
    );
    assert_eq!(
        store.get_message_at(take("q", None), at(6)).unwrap().content(),
        "free"
    );
    assert_eq!(store.get_message_at(take("q", None), at(6)), no_message("q"));
    assert_eq!(
        store.get_message_at(take("q", None), at(100)).unwrap().content(),
        "held"
    );
}

#[test]
fn a_lease_keeps_others_out_until_it_is_released() {
    let mut store = Memory::new();
    put(&mut store, "q", "m", 1, at(0));
    store.get_message_at(lease("q", None, 10), at(0)).unwrap();
    for action in [peek("q", None), take("q", None), lease("q", None, 1)] {
        assert_eq!(store.get_message_at(action.clone(), at(0)), no_message("q"));
        assert_eq!(store.get_message_at(action, at(9)), no_message("q"));
    }
    let freed = store.get_message_at(release("q", 1), at(9)).unwrap();
    assert_eq!(freed.reservation(), Reservation::Unreserved);
    assert_eq!(depth(&store, "q"), 1);
    assert_eq!(
        store.get_message_at(take("q", None), at(9)).unwrap().content(),
        "m"
    );
}

#[test]
fn a_peek_changes_nothing() {
    let mut store = Memory::new();
    let m1 = put(&mut store, "q", "m1", 1, at(0));
    put(&mut store, "q", "m2", 2, at(0));
    for _ in 0..5 {
        assert_eq!(store.get_message_at(peek("q", None), at(3)), Ok(m1.clone()));
        assert_eq!(depth(&store, "q"), 2);
    }
    assert_eq!(store.get_message_at(take("q", None), at(3)), Ok(m1));
}

#[test]
fn an_expired_message_is_out_of_reach() {
    let mut store = Memory::new();
    let created = put_for(&mut store, "q", "m", 1, 10, at(100));
    assert_eq!(created.expiry(), Expiry::Expire(at(110)));
    assert!(store.get_message_at(peek("q", Some(1)), at(109)).is_ok());
    for action in [peek("q", Some(1)), take("q", None), lease("q", None, 5)] {
        assert_eq!(store.get_message_at(action.clone(), at(110)), no_message("q"));
        assert_eq!(store.get_message_at(action, at(1000)), no_message("q"));
    }
    assert_eq!(depth(&store, "q"), 1);
}

#[test]
fn an_expired_message_is_out_of_reach_while_leased() {
    let mut store = Memory::new();
    put_for(&mut store, "q", "m", 1, 10, at(0));
    store.get_message_at(lease("q", None, 5), at(8)).unwrap();
    assert_eq!(store.get_message_at(take("q", None), at(12)), no_message("q"));
    assert_eq!(store.get_message_at(take("q", None), at(13)), no_message("q"));
    assert!(store.get_message_at(ack("q", 1), at(12)).is_ok());
}

#[test]
fn what_goes_in_comes_out_once() {
    let mut store = Memory::new();
    put(&mut store, "q", "other", 7, at(0));
    let created = put(&mut store, "q", "the content", 8, at(0));
    assert_eq!(created.mid(), 8);
    let taken = store.get_message_at(take("q", Some(8)), at(1)).unwrap();
    assert_eq!(taken.content(), "the content");
    assert_eq!(taken, created);
    assert_eq!(depth(&store, "q"), 1);
    assert_eq!(store.get_message_at(take("q", Some(8)), at(1)), no_message("q"));
}

#[test]
fn creating_sweeps_every_queue() {
    let mut store = Memory::new();
    put_for(&mut store, "a", "x", 1, 10, at(0));
    put(&mut store, "a", "y", 2, at(0));
    put_for(&mut store, "b", "z", 3, 20, at(0));
    put(&mut store, "c", "w", 4, at(15));
    assert_eq!(depth(&store, "a"), 1);
    assert_eq!(depth(&store, "b"), 1);
    put(&mut store, "c", "w", 5, at(20));
    assert_eq!(depth(&store, "b"), 0);
    assert_eq!(depth(&store, "c"), 2);
    assert_eq!(
        store.queue_summary(None),
        Ok(vec![
            QueueSummary::new(&name("a"), 1),
            QueueSummary::new(&name("b"), 0),
            QueueSummary::new(&name("c"), 2),
        ])
    );
}

#[test]
fn queues_are_summarised_one_by_one_or_together() {
    let mut store = Memory::new();
    assert_eq!(store.queue_summary(None), Ok(vec![]));
    put(&mut store, "a", "x", 1, at(0));
    put(&mut store, "b", "y", 2, at(0));
    put(&mut store, "b", "z", 3, at(0));
    assert_eq!(
        store.queue_summary(Some(&name("b"))),
        Ok(vec![QueueSummary::new(&name("b"), 2)])
    );
    assert_eq!(
        store.queue_summary(Some(&name("c"))),
        Err(QueueSummaryError::NoQueue("c".to_string()))
    );
    let summary = store.get_info(info("a")).unwrap();
    assert_eq!(summary.queue_name(), "a");
    assert_eq!(summary.depth(), 1);
    assert_eq!(summary.clone(), summary);
    assert_eq!(
        store.get_info(peek("zz", None)),
        Err(QueueSummaryError::NoQueue("zz".to_string()))
    );
    assert_eq!(
        QueueSummaryError::NoQueue("zz".to_string()).to_string(),
        "QueueSummaryError"
    );
    assert_eq!(
        CreateMessageError::BadQueue("zz".to_string()).to_string(),
        "Create message error"
    );
}

#[test]
fn a_queue_that_is_not_there_has_no_message() {
    let mut store = Memory::new();
    put(&mut store, "q", "m", 1, at(0));
    assert_eq!(
        store.get_message_at(take("elsewhere", None), at(0)),
        no_message("no such queue")
    );
    assert_eq!(
        store.get_message_at(ack("elsewhere", 1), at(0)),
        no_message("no such queue")
    );
}

#[test]
fn a_queue_hands_out_its_places() {
    let mut queue = Queue::new(name("q"));
    assert_eq!(queue.name().as_str(), "q");
    assert_eq!(queue.depth(), 0);
    assert!(!queue.is_full());
    let first = queue.add_message(Message::new(1, None, "a".to_string(), None));
    let second = queue.add_message(Message::new(2, Some(9), "b".to_string(), Some(at(3))));
    assert_eq!(first.cursor(), 1);
    assert_eq!(second.cursor(), 2);
    assert_eq!(second.mid(), 2);
    assert_eq!(second.cid(), Some(9));
    assert_eq!(second.content(), "b");
    assert_eq!(second.expiry(), Expiry::Expire(at(3)));
    assert_eq!(second.reservation(), Reservation::Unreserved);
    assert_eq!(queue.depth(), 2);
}

#[test]
fn a_message_keeps_what_it_is_given() {
    let mut msg = Message::new(1, None, "a".to_string(), None);
    assert_eq!(msg.cursor(), 0);
    assert_eq!(msg.expiry(), Expiry::Permanent);
    assert!(!msg.is_expired(at(1_000_000)));
    assert!(!msg.is_reserved(at(0)));
    msg.set_reservation(&None);
    assert_eq!(msg.reservation(), Reservation::Unreserved);
    msg.set_reservation(&Some(at(5)));
    assert_eq!(msg.reservation(), Reservation::Until(at(5)));
    assert!(msg.is_reserved(at(4)));
    assert!(!msg.is_reserved(at(5)));
    msg.set_reservation(&None);
    assert_eq!(msg.reservation(), Reservation::Until(at(5)));
    msg.set_expiry(&None);
    assert_eq!(msg.expiry(), Expiry::Permanent);
    msg.set_expiry(&Some(at(7)));
    assert!(!msg.is_expired(at(6)));
    assert!(msg.is_expired(at(7)));
    msg.set_expiry(&None);
    assert_eq!(msg.expiry(), Expiry::Expire(at(7)));
    msg.reserve_for_seconds(3, Instant::from_nanos(500));
    assert_eq!(
        msg.reservation(),
        Reservation::Until(Instant::from_nanos(3_000_000_500))
    );
    msg.remove_reservation();
    assert_eq!(msg.reservation(), Reservation::Unreserved);
    msg.set_cursor(9);
    assert_eq!(msg.cursor(), 9);
    assert_eq!(msg.clone(), msg);
    assert_eq!(Reservation::from(None), Reservation::Unreserved);
    assert_eq!(Reservation::from(Some(at(1))), Reservation::Until(at(1)));
    assert_eq!(Expiry::from(None), Expiry::Permanent);
    assert_eq!(Expiry::from(Some(at(1))), Expiry::Expire(at(1)));
}

#[test]
fn the_store_reads_its_clock_and_draws_identifiers() {
    let mut store = Memory::new();
    let req = CreateMessageRequest::new("m".to_string(), Some(5), Some(3600));
    let first = store.create_message(name("q"), &req).unwrap();
    let second = store.create_message(name("q"), &req.clone()).unwrap();
    assert_ne!(first.mid(), second.mid());
    assert_eq!(first.cid(), Some(5));
    assert_eq!((first.cursor(), second.cursor()), (1, 2));
    match first.expiry() {
        Expiry::Expire(until) => {
            assert!(until.as_nanos() >= 3_600_000_000_000);
            assert!(until.as_nanos() < 3_660_000_000_000);
        }
        Expiry::Permanent => panic!("the message has a life span"),
    }
    let held = store.get_message(lease("q", Some(second.mid()), 60)).unwrap();
    match held.reservation() {
        Reservation::Until(until) => {
            assert!(until > store.now());
            assert!(until.as_nanos() < 120_000_000_000);
        }
        Reservation::Unreserved => panic!("the message is held"),
    }
    assert_eq!(store.get_message(take("q", None)), Ok(first));
    assert_eq!(store.get_message(take("q", None)), no_message("q"));
}

#[test]
fn the_service_hands_on_to_its_store() {
    let mut service = Service::new(Memory::new());
    let req = CreateMessageRequest::new("m".to_string(), None, None);
    let created = MessageService::create_message(&mut service, name("q"), &req).unwrap();
    assert_eq!(created.cursor(), 1);
    assert_eq!(
        MessageService::queue_list(&service),
        Ok(QueueList(vec!["q".to_string()]))
    );
    assert_eq!(
        MessageService::get_info(&service, info("q")),
        Ok(QueueSummary::new(&name("q"), 1))
    );
    assert_eq!(
        MessageService::get_message(&mut service, take("q", None)),
        Ok(created)
    );
    assert_eq!(
        MessageService::get_message(&mut service, take("q", None)),
        no_message("q")
    );
}

#[test]
fn the_store_is_a_repository() {
    let mut store = Memory::new();
    let req = CreateMessageRequest::new("m".to_string(), None, None);
    let created = MessageRepository::create_message(&mut store, name("q"), &req).unwrap();
    assert_eq!(
        MessageRepository::queue_list(&store),
        Ok(QueueList(vec!["q".to_string()]))
    );
    assert_eq!(
        MessageRepository::get_info(&store, info("q")),
        Ok(QueueSummary::new(&name("q"), 1))
    );
    assert_eq!(
        MessageRepository::get_message(&mut store, peek("q", None)),
        Ok(created)
    );
}
