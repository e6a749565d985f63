use spotix::widget::remote_image::{request_delay_nanos, RemoteImage, TimerOutcome};

#[test]
fn image_is_requested_once_for_its_location() {
    let mut image = RemoteImage::new();
    assert!(image.widget_added(Some("https://i/1".to_string())));
    assert_eq!(request_delay_nanos(None), 250_000_000);
    image.timer_started(11);
    assert!(matches!(image.timer_fired(12, None), TimerOutcome::NotOurs));
    match image.timer_fired(11, None) {
        TimerOutcome::Request { location } => assert_eq!(location, "https://i/1"),
        _ => panic!("expected a request"),
    }
    assert!(matches!(image.timer_fired(11, None), TimerOutcome::NotOurs));
    assert!(!image.provide_data("https://i/2"));
    assert!(!image.showing_image);
    assert!(image.provide_data("https://i/1"));
    assert!(image.showing_image);
}

#[test]
fn rate_limit_delays_the_request() {
    let mut image = RemoteImage::new();
    image.widget_added(Some("u".to_string()));
    assert_eq!(request_delay_nanos(Some(3_000_000_000)), 3_000_000_000);
    image.timer_started(1);
    match image.timer_fired(1, Some(3_000_000_000)) {
        TimerOutcome::Rearm { delay_nanos } => assert_eq!(delay_nanos, 3_000_000_000),
        _ => panic!("expected a new timer"),
    }
    assert_eq!(image.pending_request.as_deref(), Some("u"));
    image.timer_started(2);
    assert!(matches!(image.timer_fired(2, None), TimerOutcome::Request { .. }));
}

#[test]
fn new_location_drops_the_shown_image() {
    let mut image = RemoteImage::new();
    image.widget_added(Some("a".to_string()));
    image.timer_started(5);
    let _ = image.timer_fired(5, None);
    assert!(image.provide_data("a"));
    let same = image.update(Some("a".to_string()));
    assert!(!same.children_changed);
    assert!(!same.start_timer);
    assert!(image.showing_image);
    let moved = image.update(Some("b".to_string()));
    assert!(moved.children_changed);
    assert!(moved.start_timer);
    assert!(!image.showing_image);
    assert!(!image.provide_data("a"));
    image.timer_started(6);
    let gone = image.update(None);
    assert!(gone.children_changed);
    assert!(!gone.start_timer);
    assert_eq!(image.request_timer, None);
    image.timer_started(7);
    assert!(matches!(image.timer_fired(7, None), TimerOutcome::Done));
}

#[test]
fn pending_request_without_timer_gets_one() {
    let mut image = RemoteImage::new();
    image.widget_added(Some("a".to_string()));
    let again = image.update(Some("a".to_string()));
    assert!(!again.children_changed);
    assert!(again.start_timer);
}
