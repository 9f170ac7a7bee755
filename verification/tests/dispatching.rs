use chat_router::connection::{ConnectionRegistry, Offer};
use chat_router::dispatch::{
    fan_out, message_from_client, message_processing, ChatMessageInfoState, ChatMessageRequest,
    DispatchAction, DispatchEvent, Dispatcher, SubmitError,
};
use chat_router::message::{ChatMessage, MessageType};
use chat_router::roster::GroupCache;
use chat_router::session::{Session, SessionRegistry};
use tokio::sync::mpsc::{channel, Receiver};

fn message(kind: MessageType, content: &str, sender: u64, receiver: u64) -> ChatMessage {
    ChatMessage {
        message_type: kind,
        content: content.to_string(),
        sender_id: sender,
        receiver_id: receiver,
        time: 0,
    }
}

fn connect(connections: &mut ConnectionRegistry, user: u64, buffer: usize) -> (u64, Receiver<String>) {
    let (sender, receiver) = channel::<String>(buffer);
    (connections.register(user, sender).id, receiver)
}

fn received(receiver: &mut Receiver<String>) -> Vec<String> {
    let mut texts = Vec::new();
    while let Ok(text) = receiver.try_recv() {
        texts.push(text);
    }
    texts
}

fn stored_content(action: DispatchAction) -> String {
    match action {
        DispatchAction::Store(message) => message.content,
        _ => panic!("the dispatcher did not hand out a message"),
    }
}

fn delivered(action: DispatchAction) -> (String, Vec<(u64, u64, Offer)>) {
    match action {
        DispatchAction::Delivered { envelope, report } => (
            envelope,
            report.iter().map(|d| (d.user, d.connection, d.outcome)).collect(),
        ),
        _ => panic!("the dispatcher did not deliver"),
    }
}

#[test]
fn private_message_reaches_the_receiver_and_nobody_else() {
    let mut dispatcher = Dispatcher::new(8);
    let mut groups = GroupCache::new(4);
    let mut connections = ConnectionRegistry::new();
    let (_one, mut inbox_one) = connect(&mut connections, 1, 4);
    let (two, mut inbox_two) = connect(&mut connections, 2, 4);
    let (_three, mut inbox_three) = connect(&mut connections, 3, 4);
    assert_eq!(dispatcher.submit(message(MessageType::Private, "hi", 1, 2)), Ok(()));

    let action = message_processing(&mut dispatcher, DispatchEvent::Wake, &mut groups, &connections);
    assert_eq!(stored_content(action), "hi");
    let action =
        message_processing(&mut dispatcher, DispatchEvent::Stored(true), &mut groups, &connections);
    let expected = "{\"message_type\":\"Private\",\"user_id\":1,\"group_id\":null,\"content\":\"hi\"}";
    let (envelope, report) = delivered(action);
    assert_eq!(envelope, expected);
    assert_eq!(report, vec![(2, two, Offer::Accepted)]);
    assert_eq!(received(&mut inbox_two), vec![expected.to_string()]);
    assert!(received(&mut inbox_one).is_empty());
    assert!(received(&mut inbox_three).is_empty());
    assert!(dispatcher.is_idle());
}

#[test]
fn private_message_to_an_offline_user_is_delivered_to_nobody() {
    let mut dispatcher = Dispatcher::new(8);
    let mut groups = GroupCache::new(4);
    let mut connections = ConnectionRegistry::new();
    let (_one, mut inbox_one) = connect(&mut connections, 1, 4);
    assert_eq!(dispatcher.submit(message(MessageType::Private, "anyone?", 1, 2)), Ok(()));
    message_processing(&mut dispatcher, DispatchEvent::Wake, &mut groups, &connections);
    let action =
        message_processing(&mut dispatcher, DispatchEvent::Stored(true), &mut groups, &connections);
    let (_, report) = delivered(action);
    assert!(report.is_empty());
    assert!(received(&mut inbox_one).is_empty());
    assert!(dispatcher.is_idle());
}

#[test]
fn group_message_is_echoed_to_its_sender() {
    let mut dispatcher = Dispatcher::new(8);
    let mut groups = GroupCache::new(4);
    let mut connections = ConnectionRegistry::new();
    let (one, mut inbox_one) = connect(&mut connections, 1, 4);
    let (two, mut inbox_two) = connect(&mut connections, 2, 4);
    let (_four, mut inbox_four) = connect(&mut connections, 4, 4);
    groups.complete_fetch(50, Some(vec![1, 2, 3]));
    assert_eq!(dispatcher.submit(message(MessageType::Group, "hello all", 1, 50)), Ok(()));
    message_processing(&mut dispatcher, DispatchEvent::Wake, &mut groups, &connections);
    let action =
        message_processing(&mut dispatcher, DispatchEvent::Stored(true), &mut groups, &connections);
    let expected =
        "{\"message_type\":\"Group\",\"user_id\":1,\"group_id\":50,\"content\":\"hello all\"}";
    let (envelope, report) = delivered(action);
    assert_eq!(envelope, expected);
    assert_eq!(report, vec![(1, one, Offer::Accepted), (2, two, Offer::Accepted)]);
    assert_eq!(received(&mut inbox_one), vec![expected.to_string()]);
    assert_eq!(received(&mut inbox_two), vec![expected.to_string()]);
    assert!(received(&mut inbox_four).is_empty());
}

#[test]
fn uncached_group_is_fetched_then_cached() {
    let mut dispatcher = Dispatcher::new(8);
    let mut groups = GroupCache::new(4);
    let mut connections = ConnectionRegistry::new();
    let (two, mut inbox_two) = connect(&mut connections, 2, 4);
    assert_eq!(dispatcher.submit(message(MessageType::Group, "first", 1, 50)), Ok(()));
    assert_eq!(dispatcher.submit(message(MessageType::Group, "second", 1, 50)), Ok(()));

    message_processing(&mut dispatcher, DispatchEvent::Wake, &mut groups, &connections);
    let action =
        message_processing(&mut dispatcher, DispatchEvent::Stored(true), &mut groups, &connections);
    assert!(matches!(action, DispatchAction::Fetch(50)));
    assert!(dispatcher.is_fetching());
    let action = message_processing(
        &mut dispatcher,
        DispatchEvent::Roster(Some(vec![2, 9])),
        &mut groups,
        &connections,
    );
    let (_, report) = delivered(action);
    assert_eq!(report, vec![(2, two, Offer::Accepted)]);

    message_processing(&mut dispatcher, DispatchEvent::Wake, &mut groups, &connections);
    let action =
        message_processing(&mut dispatcher, DispatchEvent::Stored(true), &mut groups, &connections);
    let (_, report) = delivered(action);
    assert_eq!(report, vec![(2, two, Offer::Accepted)]);
    assert_eq!(
        received(&mut inbox_two),
        vec![
            "{\"message_type\":\"Group\",\"user_id\":1,\"group_id\":50,\"content\":\"first\"}"
                .to_string(),
            "{\"message_type\":\"Group\",\"user_id\":1,\"group_id\":50,\"content\":\"second\"}"
                .to_string(),
        ]
    );
}

#[test]
fn invalidated_group_is_fetched_again() {
    let mut dispatcher = Dispatcher::new(8);
    let mut groups = GroupCache::new(4);
    let connections = ConnectionRegistry::new();
    groups.complete_fetch(50, Some(vec![1]));
    groups.invalidate(50);
    assert_eq!(dispatcher.submit(message(MessageType::Group, "again", 1, 50)), Ok(()));
    message_processing(&mut dispatcher, DispatchEvent::Wake, &mut groups, &connections);
    let action =
        message_processing(&mut dispatcher, DispatchEvent::Stored(true), &mut groups, &connections);
    assert!(matches!(action, DispatchAction::Fetch(50)));
}

#[test]
fn failed_fetch_delivers_to_nobody_and_frees_the_dispatcher() {
    let mut dispatcher = Dispatcher::new(8);
    let mut groups = GroupCache::new(4);
    let mut connections = ConnectionRegistry::new();
    let (_two, mut inbox_two) = connect(&mut connections, 2, 4);
    assert_eq!(dispatcher.submit(message(MessageType::Group, "lost", 1, 50)), Ok(()));
    message_processing(&mut dispatcher, DispatchEvent::Wake, &mut groups, &connections);
    message_processing(&mut dispatcher, DispatchEvent::Stored(true), &mut groups, &connections);
    let action =
        message_processing(&mut dispatcher, DispatchEvent::Roster(None), &mut groups, &connections);
    let (_, report) = delivered(action);
    assert!(report.is_empty());
    assert!(received(&mut inbox_two).is_empty());
    assert!(dispatcher.is_idle());
}

#[test]
fn messages_are_handed_out_in_submission_order() {
    let mut dispatcher = Dispatcher::new(8);
    let mut groups = GroupCache::new(4);
    let connections = ConnectionRegistry::new();
    assert_eq!(dispatcher.submit(message(MessageType::Private, "a", 3, 9)), Ok(()));
    assert_eq!(dispatcher.submit(message(MessageType::Private, "b", 1, 9)), Ok(()));
    assert_eq!(dispatcher.submit(message(MessageType::Private, "c", 2, 9)), Ok(()));
    assert_eq!(dispatcher.backlog(), 3);
    let mut order = Vec::new();
    for _ in 0..3 {
        let action =
            message_processing(&mut dispatcher, DispatchEvent::Wake, &mut groups, &connections);
        order.push(stored_content(action));
        message_processing(&mut dispatcher, DispatchEvent::Stored(true), &mut groups, &connections);
    }
    assert_eq!(order, vec!["a", "b", "c"]);
    let action = message_processing(&mut dispatcher, DispatchEvent::Wake, &mut groups, &connections);
    assert!(matches!(action, DispatchAction::Wait));
}

#[test]
fn full_queue_refuses_at_once() {
    let mut dispatcher = Dispatcher::new(2);
    assert_eq!(dispatcher.submit(message(MessageType::Private, "a", 1, 2)), Ok(()));
    assert_eq!(dispatcher.submit(message(MessageType::Private, "b", 1, 2)), Ok(()));
    assert_eq!(
        dispatcher.submit(message(MessageType::Private, "c", 1, 2)),
        Err(SubmitError::Busy)
    );
    assert_eq!(dispatcher.backlog(), 2);
}

#[test]
fn queue_without_room_refuses_everything() {
    let mut dispatcher = Dispatcher::new(0);
    assert_eq!(
        dispatcher.submit(message(MessageType::Private, "a", 1, 2)),
        Err(SubmitError::Busy)
    );
}

#[test]
fn failed_persistence_drops_the_message_and_not_the_next() {
    let mut dispatcher = Dispatcher::new(8);
    let mut groups = GroupCache::new(4);
    let mut connections = ConnectionRegistry::new();
    let (two, mut inbox_two) = connect(&mut connections, 2, 4);
    assert_eq!(dispatcher.submit(message(MessageType::Private, "lost", 1, 2)), Ok(()));
    assert_eq!(dispatcher.submit(message(MessageType::Private, "kept", 1, 2)), Ok(()));
    message_processing(&mut dispatcher, DispatchEvent::Wake, &mut groups, &connections);
    let action =
        message_processing(&mut dispatcher, DispatchEvent::Stored(false), &mut groups, &connections);
    assert!(matches!(action, DispatchAction::Dropped));
    assert!(received(&mut inbox_two).is_empty());
    let action = message_processing(&mut dispatcher, DispatchEvent::Wake, &mut groups, &connections);
    assert_eq!(stored_content(action), "kept");
    let action =
        message_processing(&mut dispatcher, DispatchEvent::Stored(true), &mut groups, &connections);
    let (_, report) = delivered(action);
    assert_eq!(report, vec![(2, two, Offer::Accepted)]);
    assert_eq!(received(&mut inbox_two).len(), 1);
}

#[test]
fn events_out_of_turn_are_ignored() {
    let mut dispatcher = Dispatcher::new(8);
    let mut groups = GroupCache::new(4);
    let connections = ConnectionRegistry::new();
    let action =
        message_processing(&mut dispatcher, DispatchEvent::Stored(true), &mut groups, &connections);
    assert!(matches!(action, DispatchAction::Ignored));
    let action =
        message_processing(&mut dispatcher, DispatchEvent::Roster(None), &mut groups, &connections);
    assert!(matches!(action, DispatchAction::Ignored));
    assert_eq!(dispatcher.submit(message(MessageType::Private, "a", 1, 2)), Ok(()));
    assert_eq!(dispatcher.submit(message(MessageType::Private, "b", 1, 2)), Ok(()));
    message_processing(&mut dispatcher, DispatchEvent::Wake, &mut groups, &connections);
    let action = message_processing(&mut dispatcher, DispatchEvent::Wake, &mut groups, &connections);
    assert!(matches!(action, DispatchAction::Ignored));
    assert_eq!(dispatcher.backlog(), 1);
    let action =
        message_processing(&mut dispatcher, DispatchEvent::Roster(None), &mut groups, &connections);
    assert!(matches!(action, DispatchAction::Ignored));
    assert!(!dispatcher.is_idle());
}

#[test]
fn full_or_closed_channel_does_not_stop_the_others() {
    let mut connections = ConnectionRegistry::new();
    let (one, mut inbox_one) = connect(&mut connections, 1, 1);
    let (two, inbox_two) = connect(&mut connections, 2, 4);
    let (three, mut inbox_three) = connect(&mut connections, 3, 4);
    drop(inbox_two);
    let first = fan_out(&connections, &vec![1, 2, 3], &"x".to_string());
    let first: Vec<_> = first.iter().map(|d| (d.user, d.connection, d.outcome)).collect();
    assert_eq!(
        first,
        vec![(1, one, Offer::Accepted), (2, two, Offer::Closed), (3, three, Offer::Accepted)]
    );
    let second = fan_out(&connections, &vec![1, 2, 3], &"y".to_string());
    let second: Vec<_> = second.iter().map(|d| (d.user, d.connection, d.outcome)).collect();
    assert_eq!(
        second,
        vec![(1, one, Offer::Full), (2, two, Offer::Closed), (3, three, Offer::Accepted)]
    );
    assert_eq!(received(&mut inbox_one), vec!["x".to_string()]);
    assert_eq!(received(&mut inbox_three), vec!["x".to_string(), "y".to_string()]);
}

#[test]
fn fan_out_follows_the_list_even_where_it_repeats() {
    let mut connections = ConnectionRegistry::new();
    let (one, mut inbox_one) = connect(&mut connections, 1, 4);
    let report = fan_out(&connections, &vec![1, 5, 1], &"x".to_string());
    let report: Vec<_> = report.iter().map(|d| (d.user, d.connection, d.outcome)).collect();
    assert_eq!(report, vec![(1, one, Offer::Accepted), (1, one, Offer::Accepted)]);
    assert_eq!(received(&mut inbox_one).len(), 2);
    assert!(fan_out(&connections, &vec![], &"x".to_string()).is_empty());
}

#[test]
fn superseded_connection_gets_no_delivery() {
    let mut connections = ConnectionRegistry::new();
    let (_old, mut old_inbox) = connect(&mut connections, 1, 4);
    let (new, mut new_inbox) = connect(&mut connections, 1, 4);
    let report = fan_out(&connections, &vec![1], &"x".to_string());
    let report: Vec<_> = report.iter().map(|d| (d.user, d.connection, d.outcome)).collect();
    assert_eq!(report, vec![(1, new, Offer::Accepted)]);
    assert!(received(&mut old_inbox).is_empty());
    assert_eq!(received(&mut new_inbox), vec!["x".to_string()]);
}

#[test]
fn request_with_a_known_session_is_queued() {
    let mut sessions = SessionRegistry::new(4);
    let mut dispatcher = Dispatcher::new(1);
    let mut groups = GroupCache::new(4);
    let connections = ConnectionRegistry::new();
    sessions.bind(99, 7);
    let request = ChatMessageRequest {
        message_type: MessageType::Group,
        content: "queued".to_string(),
        receiver_id: 50,
        session: Session { session_id: 99 },
    };
    let answer = message_from_client(&mut sessions, &mut dispatcher, request, 1234);
    assert_eq!(answer.state, ChatMessageInfoState::Accepted);
    let action = message_processing(&mut dispatcher, DispatchEvent::Wake, &mut groups, &connections);
    match action {
        DispatchAction::Store(message) => {
            assert_eq!(message.message_type, MessageType::Group);
            assert_eq!(message.content, "queued");
            assert_eq!(message.sender_id, 7);
            assert_eq!(message.receiver_id, 50);
            assert_eq!(message.time, 1234);
        }
        _ => panic!("the dispatcher did not hand out the message"),
    }
}

#[test]
fn request_with_an_unknown_session_is_refused() {
    let mut sessions = SessionRegistry::new(4);
    let mut dispatcher = Dispatcher::new(1);
    let request = ChatMessageRequest {
        message_type: MessageType::Private,
        content: "who".to_string(),
        receiver_id: 2,
        session: Session { session_id: 1 },
    };
    let answer = message_from_client(&mut sessions, &mut dispatcher, request, 0);
    assert_eq!(answer.state, ChatMessageInfoState::WrongToken);
    assert_eq!(dispatcher.backlog(), 0);
}

#[test]
fn request_to_a_full_queue_finds_the_server_busy() {
    let mut sessions = SessionRegistry::new(4);
    let mut dispatcher = Dispatcher::new(1);
    sessions.bind(1, 7);
    assert_eq!(dispatcher.submit(message(MessageType::Private, "a", 1, 2)), Ok(()));
    let request = ChatMessageRequest {
        message_type: MessageType::Private,
        content: "b".to_string(),
        receiver_id: 2,
        session: Session { session_id: 1 },
    };
    let answer = message_from_client(&mut sessions, &mut dispatcher, request, 0);
    assert_eq!(answer.state, ChatMessageInfoState::Busy);
    assert_eq!(dispatcher.backlog(), 1);
}

#[test]
fn unencodable_message_is_dropped_and_the_next_proceeds() {
    let mut dispatcher = Dispatcher::new(8);
    let mut groups = GroupCache::new(4);
    let mut connections = ConnectionRegistry::new();
    let (_two, mut inbox_two) = connect(&mut connections, 2, 4);
    assert_eq!(dispatcher.submit(message(MessageType::Private, "a", 1, 2)), Ok(()));
    assert_eq!(dispatcher.submit(message(MessageType::Private, "b", 1, 2)), Ok(()));
    message_processing(&mut dispatcher, DispatchEvent::Wake, &mut groups, &connections);
    assert!(dispatcher.is_storing());
    let action = dispatcher.route(None, &mut groups, &connections);
    assert!(matches!(action, DispatchAction::Unencodable));
    assert!(dispatcher.is_idle());
    assert!(received(&mut inbox_two).is_empty());
    let action = message_processing(&mut dispatcher, DispatchEvent::Wake, &mut groups, &connections);
    assert_eq!(stored_content(action), "b");
}

#[test]
fn route_offers_the_given_envelope() {
    let mut dispatcher = Dispatcher::new(8);
    let mut groups = GroupCache::new(4);
    let mut connections = ConnectionRegistry::new();
    let (two, mut inbox_two) = connect(&mut connections, 2, 4);
    assert_eq!(dispatcher.submit(message(MessageType::Private, "a", 1, 2)), Ok(()));
    message_processing(&mut dispatcher, DispatchEvent::Wake, &mut groups, &connections);
    let action = dispatcher.route(Some("as given".to_string()), &mut groups, &connections);
    let (envelope, report) = delivered(action);
    assert_eq!(envelope, "as given");
    assert_eq!(report, vec![(2, two, Offer::Accepted)]);
    assert_eq!(received(&mut inbox_two), vec!["as given".to_string()]);
}
