//! The event bus: delivery to live subscriptions, no replay for late
//! ones, lag on overflow, and a publisher indifferent to disconnects.

use kpower_server::bus::{EventBus, RecvOutcome};
use kpower_server::events::AppEvent;
use kpower_server::fields::{InviteCode, User, Username};

fn login_event(name: &str) -> AppEvent {
    AppEvent::NewLogin(User {
        username: Username::from(name.to_string()),
        invite_code: InviteCode::from(format!("{}1234", &name[..3])),
        referred_by: None,
        referrals: 0,
    })
}

fn event_name(o: &RecvOutcome) -> String {
    match o {
        RecvOutcome::Event(AppEvent::NewLogin(u)) => u.username.inner(),
        _ => panic!("expected a NewLogin event"),
    }
}

#[test]
fn subscriber_connected_before_publish_receives_the_event() {
    let mut bus = EventBus::new(100);
    let sub = bus.subscribe();
    bus.publish(login_event("alice"));
    let got = bus.recv(sub);
    assert_eq!(event_name(&got), "alice");
}

#[test]
fn subscriber_connected_after_publish_misses_the_event() {
    let mut bus = EventBus::new(100);
    bus.publish(login_event("alice"));
    let sub = bus.subscribe();
    assert!(matches!(bus.recv(sub), RecvOutcome::Empty));
}

#[test]
fn disconnecting_a_subscriber_does_not_disturb_the_publisher() {
    let mut bus = EventBus::new(100);
    let sub = bus.subscribe();
    let keeper = bus.subscribe();
    bus.unsubscribe(sub);
    // Publishing still succeeds and reaches the remaining subscription.
    bus.publish(login_event("alice"));
    assert!(matches!(bus.recv(sub), RecvOutcome::Closed));
    assert_eq!(event_name(&bus.recv(keeper)), "alice");
}

#[test]
fn publish_with_no_subscribers_is_fine() {
    let mut bus = EventBus::new(100);
    bus.publish(login_event("alice"));
    bus.publish(login_event("bobby"));
}

#[test]
fn slow_subscriber_drops_oldest_and_learns_the_lag() {
    let mut bus = EventBus::new(2);
    let sub = bus.subscribe();
    bus.publish(login_event("aaa111"));
    bus.publish(login_event("bbb222"));
    bus.publish(login_event("ccc333"));
    // The oldest unread event fell out of the window.
    assert!(matches!(bus.recv(sub), RecvOutcome::Lagged(1)));
    assert_eq!(event_name(&bus.recv(sub)), "bbb222");
    assert_eq!(event_name(&bus.recv(sub)), "ccc333");
    assert!(matches!(bus.recv(sub), RecvOutcome::Empty));
}

#[test]
fn subscribers_are_positioned_independently() {
    let mut bus = EventBus::new(100);
    let first = bus.subscribe();
    bus.publish(login_event("alice"));
    let second = bus.subscribe();
    bus.publish(login_event("bobby"));

    assert_eq!(event_name(&bus.recv(first)), "alice");
    assert_eq!(event_name(&bus.recv(first)), "bobby");
    assert!(matches!(bus.recv(first), RecvOutcome::Empty));

    assert_eq!(event_name(&bus.recv(second)), "bobby");
    assert!(matches!(bus.recv(second), RecvOutcome::Empty));
}
