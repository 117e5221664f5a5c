use runst::ipc::{DbusClient, NotificationControl, Notifications, NotifyRequest};
use runst::notification::{Action, Urgency};

fn request(replaces_id: u32, urgency: Option<u8>, expire_timeout: i32) -> NotifyRequest {
    NotifyRequest {
        app_name: String::from("app"),
        replaces_id,
        app_icon: String::new(),
        summary: String::from("summary"),
        body: String::from("body"),
        actions: Vec::new(),
        urgency,
        expire_timeout,
    }
}

#[test]
fn new_ids_count_up_from_one() {
    let mut s = Notifications::new();
    let ids: Vec<u32> = (0..5).map(|_| s.next_id(0).unwrap()).collect();
    assert_eq!(ids, vec![1, 2, 3, 4, 5]);
}

#[test]
fn replacement_id_is_kept_verbatim() {
    let mut s = Notifications::new();
    let n = s.notify(request(42, None, -1), 10).unwrap();
    assert_eq!(n.id, 42);
    assert_eq!(s.next_id(0), Some(1));
    assert_eq!(s.next_id(7), Some(7));
    assert_eq!(s.next_id(0), Some(2));
}

#[test]
fn request_becomes_a_notification() {
    let mut s = Notifications::new();
    let n = s.notify(request(0, Some(2), 2500), 1234).unwrap();
    assert_eq!(n.id, 1);
    assert_eq!(n.app_name, "app");
    assert_eq!(n.summary, "summary");
    assert_eq!(n.body, "body");
    assert_eq!(n.expire_timeout, Some(2500));
    assert_eq!(n.urgency, Urgency::Critical);
    assert!(!n.is_read);
    assert_eq!(n.timestamp, 1234);
}

#[test]
fn non_positive_timeout_uses_the_policy() {
    let mut s = Notifications::new();
    assert_eq!(s.notify(request(0, None, -1), 0).unwrap().expire_timeout, None);
    assert_eq!(s.notify(request(0, None, 0), 0).unwrap().expire_timeout, None);
    assert_eq!(s.notify(request(0, None, -5), 0).unwrap().expire_timeout, None);
    assert_eq!(s.notify(request(0, Some(9), 1), 0).unwrap().urgency, Urgency::Normal);
    assert_eq!(s.notify(request(0, Some(0), 1), 0).unwrap().urgency, Urgency::Low);
    assert_eq!(s.notify(request(0, None, 1), 0).unwrap().urgency, Urgency::Normal);
}

#[test]
fn server_information_and_capabilities() {
    let s = Notifications::new();
    let (name, _vendor, version, spec_version) = s.get_server_information();
    assert_eq!(name, "runst");
    assert_eq!(version, "0.1.7");
    assert_eq!(spec_version, "1.2");
    assert!(s.get_capabilities().contains(&String::from("body")));
    assert!(matches!(s.close_notification(5), Action::Close(Some(5))));
}

#[test]
fn control_surface_maps_to_actions() {
    let c = NotificationControl::new();
    assert!(matches!(c.history(), Action::ShowLast));
    assert!(matches!(c.close(), Action::Close(None)));
    assert!(matches!(c.close_all(), Action::CloseAll));
}

#[test]
fn client_builds_its_calls() {
    let client = DbusClient::init();
    assert_eq!(client.destination, "org.freedesktop.Notifications");
    assert_eq!(client.path, "/org/freedesktop/Notifications");
    let call = client.notify(String::from("a"), String::from("s"), String::from("b"), 3000);
    assert_eq!(call.replaces_id, 0);
    assert_eq!(call.urgency, Some(0));
    assert_eq!(call.expire_timeout, 3000);
    assert_eq!(call.app_name, "a");
    assert!(call.app_icon.is_empty());
    let close = client.close_notification(8, 250);
    assert_eq!(close.id, 8);
    assert_eq!(close.timeout_ms, 250);
}
