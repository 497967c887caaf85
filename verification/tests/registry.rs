use chat_notify::gateway::{
    connect, token_from_header, token_from_query, token_refused, BearerHeader, Rejection,
    TokenStep,
};
use chat_notify::models::{Message, Timestamp};
use chat_notify::notif::{AppEvent, Notification, TranslateError};
use chat_notify::registry::{
    delivery_of, Delivery, Polled, Registry, Report, Subscription, CHANNEL_CAPACITY,
};
use std::sync::Arc;

fn message_event(id: i64) -> Arc<AppEvent> {
    Arc::new(AppEvent::NewMessage(Message {
        id,
        chat_id: 5,
        sender_id: 1,
        content: format!("message {}", id),
        created_at: Timestamp { secs: id, nanos: 0 },
    }))
}

fn next_event(subscription: &mut Subscription) -> Option<Arc<AppEvent>> {
    match subscription.poll() {
        Polled::Event(event) => Some(event),
        _ => None,
    }
}

fn message_payload(members: &str) -> String {
    format!(
        "{{\"message\":{{\"id\":9,\"chat_id\":5,\"sender_id\":2,\"content\":\"hello\",\"created_at\":\"2024-05-01T10:00:00Z\"}},\"members\":{}}}",
        members
    )
}

#[test]
fn a_new_registry_is_empty() {
    let registry = Registry::new();
    assert_eq!(registry.len(), 0);
    assert!(!registry.contains(1));
}

#[test]
fn the_first_connection_creates_the_entry() {
    let mut registry = Registry::new();
    let subscription = registry.get_or_create(42);
    assert_eq!(subscription.user_id(), 42);
    assert_eq!(registry.len(), 1);
    assert!(registry.contains(42));
    assert!(!registry.contains(43));
    let _second = registry.get_or_create(42);
    assert_eq!(registry.len(), 1);
    let _other = registry.get_or_create(43);
    assert_eq!(registry.len(), 2);
}

#[test]
fn publishing_never_creates_an_entry() {
    let mut registry = Registry::new();
    assert_eq!(registry.publish(1, &message_event(1)), Delivery::NotConnected);
    assert_eq!(registry.len(), 0);
    assert!(!registry.contains(1));
}

#[test]
fn both_connections_of_a_user_receive_the_same_event() {
    let mut registry = Registry::new();
    let mut first = registry.get_or_create(7);
    let mut second = registry.get_or_create(7);
    let event = message_event(1);
    assert_eq!(registry.publish(7, &event), Delivery::Delivered(2));
    let a = next_event(&mut first).unwrap();
    let b = next_event(&mut second).unwrap();
    assert!(Arc::ptr_eq(&a, &event));
    assert!(Arc::ptr_eq(&b, &event));
    assert_eq!(*a, *event);
    assert!(matches!(first.poll(), Polled::Empty));
    assert!(matches!(second.poll(), Polled::Empty));
}

#[test]
fn a_later_connection_gets_no_earlier_event() {
    let mut registry = Registry::new();
    let mut early = registry.get_or_create(7);
    assert_eq!(registry.publish(7, &message_event(1)), Delivery::Delivered(1));
    let mut late = registry.get_or_create(7);
    assert!(matches!(late.poll(), Polled::Empty));
    assert_eq!(registry.publish(7, &message_event(2)), Delivery::Delivered(2));
    assert_eq!(next_event(&mut late).unwrap(), message_event(2));
    assert_eq!(next_event(&mut early).unwrap(), message_event(1));
    assert_eq!(next_event(&mut early).unwrap(), message_event(2));
}

#[test]
fn an_event_for_a_user_who_is_away_is_not_kept() {
    let mut registry = Registry::new();
    assert_eq!(registry.publish(7, &message_event(1)), Delivery::NotConnected);
    let mut subscription = registry.get_or_create(7);
    assert!(matches!(subscription.poll(), Polled::Empty));
}

#[test]
fn the_entry_goes_with_the_next_publish_after_the_last_connection() {
    let mut registry = Registry::new();
    let subscription = registry.get_or_create(7);
    let _other = registry.get_or_create(8);
    assert_eq!(registry.len(), 2);
    drop(subscription);
    assert_eq!(registry.len(), 2);
    assert!(registry.contains(7));
    assert_eq!(registry.publish(7, &message_event(1)), Delivery::Reclaimed);
    assert_eq!(registry.len(), 1);
    assert!(!registry.contains(7));
    assert!(registry.contains(8));
    assert_eq!(registry.publish(7, &message_event(2)), Delivery::NotConnected);
}

#[test]
fn one_of_two_connections_closing_keeps_the_entry() {
    let mut registry = Registry::new();
    let first = registry.get_or_create(7);
    let mut second = registry.get_or_create(7);
    drop(first);
    assert_eq!(registry.publish(7, &message_event(1)), Delivery::Delivered(1));
    assert!(registry.contains(7));
    assert_eq!(next_event(&mut second).unwrap(), message_event(1));
}

#[test]
fn a_user_can_come_back_after_the_entry_was_reclaimed() {
    let mut registry = Registry::new();
    drop(registry.get_or_create(7));
    assert_eq!(registry.publish(7, &message_event(1)), Delivery::Reclaimed);
    let mut again = registry.get_or_create(7);
    assert!(registry.contains(7));
    assert!(matches!(again.poll(), Polled::Empty));
    assert_eq!(registry.publish(7, &message_event(2)), Delivery::Delivered(1));
    assert_eq!(next_event(&mut again).unwrap(), message_event(2));
}

#[test]
fn a_slow_connection_loses_the_oldest_events() {
    assert_eq!(CHANNEL_CAPACITY, 16);
    let mut registry = Registry::new();
    let mut slow = registry.get_or_create(7);
    for id in 0..20 {
        assert_eq!(registry.publish(7, &message_event(id)), Delivery::Delivered(1));
    }
    match slow.poll() {
        Polled::Lagged(skipped) => assert_eq!(skipped, 4),
        other => panic!("unexpected {:?}", other),
    }
    for id in 4..20 {
        assert_eq!(next_event(&mut slow).unwrap(), message_event(id));
    }
    assert!(matches!(slow.poll(), Polled::Empty));
}

#[test]
fn a_subscription_outlives_its_registry_as_closed() {
    let mut registry = Registry::new();
    let mut subscription = registry.get_or_create(7);
    drop(registry);
    assert!(matches!(subscription.poll(), Polled::Closed));
}

#[test]
fn the_receiving_end_can_be_taken_out() {
    let mut registry = Registry::new();
    let subscription = registry.get_or_create(7);
    let mut receiver = subscription.into_receiver();
    assert_eq!(registry.publish(7, &message_event(3)), Delivery::Delivered(1));
    assert_eq!(receiver.try_recv().unwrap(), message_event(3));
}

#[test]
fn delivery_goes_by_what_the_channel_reported() {
    assert_eq!(delivery_of(Some(3)), Delivery::Delivered(3));
    assert_eq!(delivery_of(Some(1)), Delivery::Delivered(1));
    assert_eq!(delivery_of(None), Delivery::Reclaimed);
}

#[test]
fn publish_all_serves_every_concerned_user_once() {
    let mut registry = Registry::new();
    let mut one = registry.get_or_create(1);
    let mut one_more = registry.get_or_create(1);
    drop(registry.get_or_create(2));
    let mut four = registry.get_or_create(4);
    let notification = Notification::load("message_added", &message_payload("[1,2,3,2]")).unwrap();
    let report = registry.publish_all(&notification);
    assert_eq!(report, Report { delivered: 1, reclaimed: 1, not_connected: 1 });
    assert_eq!(registry.len(), 2);
    assert!(registry.contains(1));
    assert!(!registry.contains(2));
    assert!(!registry.contains(3));
    assert!(registry.contains(4));
    let a = next_event(&mut one).unwrap();
    let b = next_event(&mut one_more).unwrap();
    assert!(Arc::ptr_eq(&a, &notification.event));
    assert!(Arc::ptr_eq(&b, &notification.event));
    assert!(matches!(four.poll(), Polled::Empty));
}

#[test]
fn nothing_is_published_when_nobody_is_concerned() {
    let mut registry = Registry::new();
    let mut one = registry.get_or_create(1);
    let payload = "{\"op\":\"UPDATE\",\"old\":{\"id\":1,\"ws_id\":1,\"type\":\"group\",\"members\":[1,2],\"created_at\":\"2024-05-01T10:00:00Z\"},\"new\":{\"id\":1,\"ws_id\":1,\"type\":\"group\",\"members\":[2,1],\"created_at\":\"2024-05-01T10:00:00Z\"}}";
    let report = registry.dispatch("chat_change", payload).unwrap();
    assert_eq!(report, Report { delivered: 0, reclaimed: 0, not_connected: 0 });
    assert_eq!(registry.len(), 1);
    assert!(matches!(one.poll(), Polled::Empty));
}

#[test]
fn dispatch_translates_and_publishes() {
    let mut registry = Registry::new();
    let mut seven = registry.get_or_create(7);
    let payload = "{\"op\":\"DELETE\",\"old\":{\"id\":1,\"ws_id\":1,\"type\":\"group\",\"members\":[7,8],\"created_at\":\"2024-05-01T10:00:00Z\"}}";
    let report = registry.dispatch("chat_change", payload).unwrap();
    assert_eq!(report, Report { delivered: 1, reclaimed: 0, not_connected: 1 });
    let event = next_event(&mut seven).unwrap();
    assert_eq!(event.kind(), "RemoveFromChat");
    match &*event {
        AppEvent::RemoveFromChat(chat) => assert_eq!(chat.members, vec![7, 8]),
        other => panic!("unexpected event {:?}", other),
    }
}

#[test]
fn a_record_that_cannot_be_translated_changes_nothing() {
    let mut registry = Registry::new();
    let mut seven = registry.get_or_create(7);
    drop(registry.get_or_create(8));
    assert_eq!(
        registry.dispatch("chat_change", "{\"members\":[7,8]}").unwrap_err(),
        TranslateError::MalformedPayload
    );
    assert_eq!(
        registry.dispatch("typing", &message_payload("[7,8]")).unwrap_err(),
        TranslateError::UnknownChannel
    );
    assert_eq!(registry.len(), 2);
    assert!(matches!(seven.poll(), Polled::Empty));
    let report = registry.dispatch("message_added", &message_payload("[7,8]")).unwrap();
    assert_eq!(report, Report { delivered: 1, reclaimed: 1, not_connected: 0 });
}

#[test]
fn the_header_decides_first() {
    assert_eq!(
        token_from_header(BearerHeader::Token("abc".to_string())),
        TokenStep::Found("abc".to_string())
    );
    assert_eq!(token_from_header(BearerHeader::Missing), TokenStep::AskQuery);
    assert_eq!(
        token_from_header(BearerHeader::Invalid("bad base64".to_string())),
        TokenStep::Rejected(Rejection {
            status: 401,
            message: "parse Authorization header failed: bad base64".to_string(),
        })
    );
}

#[test]
fn the_query_is_the_second_place() {
    assert_eq!(token_from_query(Ok("abc".to_string())), Ok("abc".to_string()));
    assert_eq!(
        token_from_query(Err("missing field `access_token`".to_string())),
        Err(Rejection {
            status: 401,
            message: "parse query params failed: missing field `access_token`".to_string(),
        })
    );
}

#[test]
fn a_refused_token_is_forbidden() {
    assert_eq!(
        token_refused(&"expired".to_string()),
        Rejection { status: 403, message: "verify token failed: expired".to_string() }
    );
}

#[test]
fn a_verified_caller_is_subscribed() {
    let mut registry = Registry::new();
    let mut subscription = connect(&mut registry, Ok(7)).unwrap();
    assert_eq!(subscription.user_id(), 7);
    assert!(registry.contains(7));
    assert_eq!(registry.publish(7, &message_event(1)), Delivery::Delivered(1));
    assert_eq!(next_event(&mut subscription).unwrap(), message_event(1));
}

#[test]
fn a_refused_caller_leaves_the_registry_alone() {
    let mut registry = Registry::new();
    let _seven = registry.get_or_create(7);
    let rejection = connect(&mut registry, Err("signature mismatch".to_string())).err().unwrap();
    assert_eq!(rejection.status, 403);
    assert_eq!(rejection.message, "verify token failed: signature mismatch");
    assert_eq!(registry.len(), 1);
    assert!(registry.contains(7));
}

#[test]
fn connections_of_one_user_listen_on_one_channel() {
    let mut registry = Registry::new();
    let first = registry.get_or_create(7).into_receiver();
    let other = registry.get_or_create(8).into_receiver();
    assert_eq!(registry.publish(7, &message_event(1)), Delivery::Delivered(1));
    let second = registry.get_or_create(7).into_receiver();
    assert!(first.same_channel(&second));
    assert!(!first.same_channel(&other));
}

#[test]
fn a_user_who_comes_back_gets_a_channel_that_is_served() {
    let mut registry = Registry::new();
    let gone = registry.get_or_create(7).into_receiver();
    drop(gone);
    assert_eq!(registry.publish(7, &message_event(1)), Delivery::Reclaimed);
    let mut back = registry.get_or_create(7);
    let mut again = connect(&mut registry, Ok(7)).unwrap();
    assert_eq!(registry.publish(7, &message_event(2)), Delivery::Delivered(2));
    assert_eq!(next_event(&mut back).unwrap(), message_event(2));
    assert_eq!(next_event(&mut again).unwrap(), message_event(2));
}
