use colorsys::Rgb;
use runst::config::{CustomCommand, UrgencyConfig};
use runst::dispatch::{
    dispatch, effective_timeout, needs_read_time, on_expiry, timeout_from_read_time, Effect,
};
use runst::manager::Manager;
use runst::notification::{Action, Notification, NotificationFilter, Pattern, Urgency};

fn note(id: u32) -> Notification {
    Notification {
        id,
        summary: format!("n{id}"),
        ..Default::default()
    }
}

fn policy(timeout: u32, auto_clear: Option<bool>) -> UrgencyConfig {
    UrgencyConfig {
        background: Rgb::default(),
        foreground: Rgb::default(),
        timeout,
        auto_clear,
        text: None,
        custom_commands: None,
    }
}

#[test]
fn shows_with_auto_ids_are_all_kept() {
    let mut m = Manager::init();
    for id in 1..=5u32 {
        let effects = dispatch(&mut m, Action::Show(note(id)), 0);
        assert_eq!(effects, vec![Effect::Hide, Effect::Show]);
    }
    assert_eq!(m.count(), 5);
    assert_eq!(m.get_unread_count(), 5);
    assert_eq!(m.get_last_unread().unwrap().id, 5);
}

#[test]
fn show_with_timeout_starts_a_timer_first() {
    let mut m = Manager::init();
    let effects = dispatch(&mut m, Action::Show(note(4)), 200);
    assert_eq!(
        effects,
        vec![Effect::StartExpiry { id: 4, after_ms: 200 }, Effect::Hide, Effect::Show]
    );
}

#[test]
fn timeout_race_closes_once() {
    let mut m = Manager::init();
    let effects = dispatch(&mut m, Action::Show(note(1)), 200);
    assert_eq!(effects[0], Effect::StartExpiry { id: 1, after_ms: 200 });
    let effects = dispatch(&mut m, Action::Close(Some(1)), 0);
    assert_eq!(effects, vec![Effect::Hide]);
    assert!(on_expiry(&m, 1).is_none());
}

#[test]
fn expiry_closes_an_unread_notification() {
    let mut m = Manager::init();
    dispatch(&mut m, Action::Show(note(3)), 100);
    assert!(matches!(on_expiry(&m, 3), Some(Action::Close(Some(3)))));
    assert!(on_expiry(&m, 8).is_none());
}

#[test]
fn close_reshows_while_something_is_unread() {
    let mut m = Manager::init();
    dispatch(&mut m, Action::Show(note(1)), 0);
    dispatch(&mut m, Action::Show(note(2)), 0);
    assert_eq!(dispatch(&mut m, Action::Close(None), 0), vec![Effect::Hide, Effect::Show]);
    assert!(m.is_unread(1));
    assert!(!m.is_unread(2));
    assert_eq!(dispatch(&mut m, Action::Close(None), 0), vec![Effect::Hide]);
    assert_eq!(m.get_unread_count(), 0);
}

#[test]
fn close_all_reads_everything() {
    let mut m = Manager::init();
    for id in 1..=3u32 {
        dispatch(&mut m, Action::Show(note(id)), 0);
    }
    assert_eq!(dispatch(&mut m, Action::CloseAll, 0), vec![Effect::Hide]);
    assert_eq!(m.get_unread_count(), 0);
    assert_eq!(m.count(), 3);
}

#[test]
fn show_last_on_empty_store_does_nothing() {
    let mut m = Manager::init();
    assert!(dispatch(&mut m, Action::ShowLast, 0).is_empty());
    assert_eq!(m.count(), 0);
}

#[test]
fn show_last_walks_the_history() {
    let mut m = Manager::init();
    for id in 1..=2u32 {
        dispatch(&mut m, Action::Show(note(id)), 0);
    }
    dispatch(&mut m, Action::CloseAll, 0);
    assert_eq!(dispatch(&mut m, Action::ShowLast, 0), vec![Effect::Hide, Effect::Show]);
    assert!(m.is_unread(2));
    assert_eq!(dispatch(&mut m, Action::ShowLast, 0), vec![Effect::Hide, Effect::Show]);
    assert!(m.is_unread(1));
    assert_eq!(dispatch(&mut m, Action::ShowLast, 0), vec![Effect::Hide]);
    assert_eq!(m.get_unread_count(), 0);
}

#[test]
fn explicit_timeout_wins() {
    let mut n = note(1);
    n.expire_timeout = Some(1500);
    let p = policy(10, Some(true));
    assert!(!needs_read_time(&n, &p));
    assert_eq!(timeout_from_read_time(&n, &p, Some(99)), 1500);
    assert_eq!(effective_timeout(&n, &p, None), 1500);
}

#[test]
fn policy_timeout_in_milliseconds() {
    let n = note(1);
    let p = policy(5, None);
    assert!(!needs_read_time(&n, &p));
    assert_eq!(effective_timeout(&n, &p, None), 5000);
    assert_eq!(effective_timeout(&n, &policy(0, Some(false)), None), 0);
    assert_eq!(timeout_from_read_time(&n, &policy(u32::MAX, None), None), 4_294_967_295_000);
}

#[test]
fn read_time_timeout() {
    let n = note(1);
    let p = policy(5, Some(true));
    assert!(needs_read_time(&n, &p));
    let text = vec!["word"; 100].join(" ");
    assert_eq!(effective_timeout(&n, &p, Some(&text)), 23_000);
    assert_eq!(effective_timeout(&n, &p, Some("")), 0);
    assert_eq!(effective_timeout(&n, &p, None), 0);
    assert_eq!(timeout_from_read_time(&n, &p, Some(2)), 2000);
    assert_eq!(timeout_from_read_time(&n, &p, Some(u64::MAX)), u64::MAX);
}

#[test]
fn commands_follow_filter_and_expiry() {
    let mut n = note(1);
    n.app_name = String::from("mail");
    n.timestamp = 100;
    n.expire_timeout = Some(5000);
    let mut p = policy(5, None);
    p.custom_commands = Some(vec![
        CustomCommand { filter: None, command: String::from("echo all") },
        CustomCommand {
            filter: Some(NotificationFilter {
                app_name: Pattern::new("^mail$"),
                summary: None,
                body: None,
            }),
            command: String::from("echo mail"),
        },
        CustomCommand {
            filter: Some(NotificationFilter {
                app_name: Pattern::new("chat"),
                summary: None,
                body: None,
            }),
            command: String::from("echo chat"),
        },
    ]);
    assert_eq!(p.commands_to_run(&n, 105), vec!["echo all", "echo mail"]);
    assert!(p.commands_to_run(&n, 106).is_empty());
    assert!(policy(5, None).commands_to_run(&n, 0).is_empty());
}

#[test]
fn urgency_text_falls_back_to_the_level_name() {
    let mut p = policy(5, None);
    assert_eq!(p.urgency_text(Urgency::Critical), "Critical");
    p.text = Some(String::from("URGENT"));
    assert_eq!(p.urgency_text(Urgency::Critical), "URGENT");
}
