use tokio::sync::broadcast::error::{SendError, TryRecvError};
use tokio_chat_server::error::ChatError;
use tokio_chat_server::hub::{Hub, Subscription, BACKLOG};

fn next(subscription: &mut Subscription) -> Result<String, TryRecvError> {
    subscription.receiver.try_recv()
}

#[test]
fn backlog_is_one_hundred() {
    assert_eq!(BACKLOG, 100);
    assert_eq!(Hub::new().capacity(), 100);
    let hub = Hub::with_backlog(7);
    assert_eq!(hub.capacity(), 7);
    assert_eq!(hub.handle().capacity(), 7);
}

#[test]
fn every_subscriber_gets_every_publish_in_order() {
    let hub = Hub::new();
    let mut subscriptions: Vec<Subscription> = (0..5).map(|_| hub.subscribe()).collect();
    let other = hub.handle();
    assert_eq!(hub.publish("one".to_string()), Ok(5));
    assert_eq!(other.publish("two".to_string()), Ok(5));
    assert_eq!(hub.publish("three".to_string()), Ok(5));
    for subscription in subscriptions.iter_mut() {
        assert_eq!(next(subscription), Ok("one".to_string()));
        assert_eq!(next(subscription), Ok("two".to_string()));
        assert_eq!(next(subscription), Ok("three".to_string()));
        assert_eq!(next(subscription), Err(TryRecvError::Empty));
    }
}

#[test]
fn late_subscriber_misses_what_came_before() {
    let hub = Hub::new();
    let mut early = hub.subscribe();
    hub.publish("before".to_string()).unwrap();
    let mut late = hub.subscribe();
    hub.publish("after".to_string()).unwrap();
    assert_eq!(next(&mut early), Ok("before".to_string()));
    assert_eq!(next(&mut early), Ok("after".to_string()));
    assert_eq!(next(&mut late), Ok("after".to_string()));
    assert_eq!(next(&mut late), Err(TryRecvError::Empty));
}

#[test]
fn publish_without_subscribers_fails() {
    let hub = Hub::new();
    assert_eq!(hub.publish("nobody".to_string()), Err(ChatError::HubClosed));
    let subscription = hub.subscribe();
    assert_eq!(hub.publish("somebody".to_string()), Ok(1));
    drop(subscription);
    assert_eq!(hub.publish("nobody again".to_string()), Err(ChatError::HubClosed));
}

#[test]
fn subscriber_outlives_the_hub_until_it_has_read_all() {
    let hub = Hub::new();
    let mut subscription = hub.subscribe();
    hub.publish("last words".to_string()).unwrap();
    drop(hub);
    assert_eq!(next(&mut subscription), Ok("last words".to_string()));
    assert_eq!(next(&mut subscription), Err(TryRecvError::Closed));
}

#[test]
fn slow_subscriber_lags_and_goes_on() {
    let hub = Hub::with_backlog(4);
    let mut slow = hub.subscribe();
    let mut quick = hub.subscribe();
    for i in 0..10 {
        assert_eq!(hub.publish(format!("m{}", i)), Ok(2));
        assert_eq!(next(&mut quick), Ok(format!("m{}", i)));
    }
    assert_eq!(next(&mut slow), Err(TryRecvError::Lagged(6)));
    for i in 6..10 {
        assert_eq!(next(&mut slow), Ok(format!("m{}", i)));
    }
    assert_eq!(next(&mut slow), Err(TryRecvError::Empty));
    hub.publish("m10".to_string()).unwrap();
    assert_eq!(next(&mut slow), Ok("m10".to_string()));
    assert_eq!(next(&mut quick), Ok("m10".to_string()));
}

#[test]
fn default_backlog_holds_at_least_one_hundred() {
    let hub = Hub::new();
    let mut subscription = hub.subscribe();
    for i in 0..BACKLOG {
        hub.publish(format!("m{}", i)).unwrap();
    }
    for i in 0..BACKLOG {
        assert_eq!(next(&mut subscription), Ok(format!("m{}", i)));
    }
    for i in 0..1000 {
        hub.publish(format!("n{}", i)).unwrap();
    }
    assert!(matches!(next(&mut subscription), Err(TryRecvError::Lagged(_))));
    assert!(matches!(next(&mut subscription), Ok(_)));
}

#[test]
fn channel_answer_decides_what_a_publish_comes_to() {
    assert_eq!(Hub::outcome(Ok(1)), Ok(1));
    assert_eq!(Hub::outcome(Ok(42)), Ok(42));
    assert_eq!(Hub::outcome(Err(SendError("unsent".to_string()))), Err(ChatError::HubClosed));
}

#[test]
fn subscription_receives_through_its_receiver() {
    let (sender, receiver) = tokio::sync::broadcast::channel::<String>(4);
    let mut subscription = Subscription::new(receiver);
    sender.send("direct".to_string()).unwrap();
    assert_eq!(next(&mut subscription), Ok("direct".to_string()));
    assert_eq!(next(&mut subscription), Err(TryRecvError::Empty));
}

#[test]
fn handles_and_subscriptions_of_one_hub_share_its_channel() {
    let hub = Hub::new();
    let first = hub.subscribe();
    let second = hub.handle().subscribe();
    let third = hub.handle().handle().subscribe();
    assert!(first.receiver.same_channel(&second.receiver));
    assert!(first.receiver.same_channel(&third.receiver));
    let other = Hub::new().subscribe();
    assert!(!first.receiver.same_channel(&other.receiver));
}

#[test]
fn channel_holds_the_backlog_it_was_asked_for() {
    for capacity in [1usize, 2, 3, 5, 100] {
        let hub = Hub::with_backlog(capacity);
        let mut subscription = hub.subscribe();
        for i in 0..capacity {
            hub.publish(format!("m{}", i)).unwrap();
        }
        for i in 0..capacity {
            assert_eq!(next(&mut subscription), Ok(format!("m{}", i)));
        }
        assert_eq!(next(&mut subscription), Err(TryRecvError::Empty));
    }
}
