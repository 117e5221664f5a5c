use runst::manager::Manager;
use runst::notification::Notification;

fn note(id: u32) -> Notification {
    Notification {
        id,
        summary: format!("n{id}"),
        ..Default::default()
    }
}

fn store(ids: &[u32]) -> Manager {
    let mut m = Manager::init();
    for id in ids {
        m.add(note(*id));
    }
    m
}

#[test]
fn navigation_bottoms_out_at_the_oldest() {
    let mut m = store(&[1, 2, 3]);
    m.mark_as_read(3);
    m.mark_as_read(2);
    assert_eq!(m.get_unread_count(), 1);
    assert!(!m.mark_next_as_unread());
    assert_eq!(m.get_unread_count(), 0);
    assert!(!m.is_unread(1));
    assert!(!m.is_unread(2));
    assert!(!m.is_unread(3));
}

#[test]
fn navigation_restarts_at_the_most_recent() {
    let mut m = store(&[1, 2, 3]);
    m.mark_all_as_read();
    assert!(m.mark_next_as_unread());
    assert!(m.is_unread(3));
    assert!(!m.is_unread(2));
    assert!(!m.is_unread(1));
    assert_eq!(m.get_unread_count(), 1);
}

#[test]
fn navigation_steps_back_one() {
    let mut m = store(&[1, 2, 3]);
    m.mark_as_read(1);
    m.mark_as_read(2);
    assert!(m.mark_next_as_unread());
    assert!(m.is_unread(2));
    assert!(!m.is_unread(3));
    assert!(!m.is_unread(1));
    assert!(m.mark_next_as_unread());
    assert!(m.is_unread(1));
    assert!(!m.mark_next_as_unread());
    assert_eq!(m.get_unread_count(), 0);
}

#[test]
fn replacement_id_inserts_when_absent() {
    let mut m = store(&[1, 2]);
    m.add(note(42));
    assert_eq!(m.count(), 3);
    assert!(m.is_unread(42));
    assert_eq!(m.get_last_unread().unwrap().id, 42);
}

#[test]
fn reused_id_replaces_the_entry() {
    let mut m = store(&[1, 2, 3]);
    m.mark_as_read(2);
    let mut replacement = note(2);
    replacement.body = String::from("updated");
    m.add(replacement);
    assert_eq!(m.count(), 3);
    assert!(m.is_unread(2));
    let last = m.get_last_unread().unwrap();
    assert_eq!(last.id, 2);
    assert_eq!(last.body, "updated");
}

#[test]
fn mark_as_read_twice_counts_as_once() {
    let mut m = store(&[1, 2, 3]);
    m.mark_as_read(2);
    let once = m.get_unread_count();
    m.mark_as_read(2);
    assert_eq!(m.get_unread_count(), once);
    assert_eq!(once, 2);
}

#[test]
fn unknown_id_is_not_unread() {
    let mut m = store(&[1, 2]);
    assert!(!m.is_unread(7));
    m.mark_as_read(7);
    assert_eq!(m.get_unread_count(), 2);
    assert!(!Manager::init().is_unread(0));
}

#[test]
fn mark_last_as_read_takes_the_most_recent_unread() {
    let mut m = store(&[1, 2, 3]);
    m.mark_as_read(3);
    m.mark_last_as_read();
    assert!(m.is_unread(1));
    assert!(!m.is_unread(2));
    m.mark_last_as_read();
    m.mark_last_as_read();
    assert_eq!(m.get_unread_count(), 0);
    assert!(m.get_last_unread().is_none());
}

#[test]
fn empty_store() {
    let mut m = Manager::init();
    assert_eq!(m.count(), 0);
    assert_eq!(m.get_unread_count(), 0);
    assert!(m.get_last_unread().is_none());
    m.mark_all_as_read();
    m.mark_last_as_read();
    assert_eq!(m.count(), 0);
}
