use crate::config::UrgencyConfig;
use crate::manager::{
    added, all_marked_read, has_id, ids_unique, lemma_all_marked_read_none_unread,
    lemma_marked_read_not_unread, marked_last_as_read, marked_next_as_unread, marked_read,
    unread_count, unread_in, Manager,
};
use crate::ipc::{lemma_new_ids_count_up, new_ids};
use crate::notification::{Action, Notification};
use vstd::prelude::*;

verus! {

/// Something the display or the expiry scheduler is to do, in order.
#[derive(Clone, Copy, Debug, PartialEq, Eq, Structural)]
pub enum Effect {
    /// Start a one-shot timer that checks the notification after `after_ms` milliseconds.
    StartExpiry { id: u32, after_ms: u64 },
    /// Hide the window.
    Hide,
    /// Show the window.
    Show,
}

/// Effects of showing a new notification: its timer, if it has a timeout,
/// then hide and show again so that the newest content is drawn.
pub open spec fn show_effects(id: u32, timeout_ms: u64) -> Seq<Effect> {
    let redraw = seq![Effect::Hide, Effect::Show];
    if timeout_ms > 0 {
        seq![Effect::StartExpiry { id, after_ms: timeout_ms }] + redraw
    } else {
        redraw
    }
}

/// Effects after closing: hide, and show again while something is unread.
pub open spec fn close_effects(unread: nat) -> Seq<Effect> {
    if unread >= 1 {
        seq![Effect::Hide, Effect::Show]
    } else {
        seq![Effect::Hide]
    }
}

/// The store after `action`.
pub open spec fn store_after(s: Seq<Notification>, action: Action) -> Seq<Notification> {
    match action {
        Action::Show(n) => added(s, n),
        Action::ShowLast => if s.len() == 0 {
            s
        } else {
            marked_next_as_unread(s)
        },
        Action::Close(Some(id)) => marked_read(s, id),
        Action::Close(None) => marked_last_as_read(s),
        Action::CloseAll => all_marked_read(s),
    }
}

/// The effects of `action` on the store `s`; `timeout_ms` is the timeout of
/// a notification to show.
pub open spec fn effects_of(s: Seq<Notification>, action: Action, timeout_ms: u64) -> Seq<Effect> {
    match action {
        Action::Show(n) => show_effects(n.id, timeout_ms),
        Action::ShowLast => if s.len() == 0 {
            Seq::empty()
        } else if s[0].is_read {
            seq![Effect::Hide, Effect::Show]
        } else {
            seq![Effect::Hide]
        },
        Action::Close(_) => close_effects(unread_count(store_after(s, action))),
        Action::CloseAll => seq![Effect::Hide],
    }
}

/// Applies one action to the store and returns what the display and the
/// expiry scheduler must do, in order.
///
/// `timeout_ms` is the effective timeout of the notification that a `Show`
/// carries (see `effective_timeout`); other actions ignore it.
pub fn dispatch(manager: &mut Manager, action: Action, timeout_ms: u64) -> (r: Vec<Effect>)
    requires
        old(manager).wf(),
    ensures
        final(manager).wf(),
        final(manager)@ == store_after(old(manager)@, action),
        r@ == effects_of(old(manager)@, action, timeout_ms),
{
    let ghost s0 = manager@;
    match action {
        Action::Show(n) => {
            let mut r: Vec<Effect> = Vec::new();
            if timeout_ms > 0 {
                r.push(Effect::StartExpiry { id: n.id, after_ms: timeout_ms });
            }
            manager.add(n);
            r.push(Effect::Hide);
            r.push(Effect::Show);
            assert(r@ =~= show_effects(n.id, timeout_ms));
            r
        },
        Action::ShowLast => {
            if manager.count() == 0 {
                Vec::new()
            } else if manager.mark_next_as_unread() {
                vec![Effect::Hide, Effect::Show]
            } else {
                vec![Effect::Hide]
            }
        },
        Action::Close(id) => {
            match id {
                Some(id) => manager.mark_as_read(id),
                None => manager.mark_last_as_read(),
            }
            if manager.get_unread_count() >= 1 {
                vec![Effect::Hide, Effect::Show]
            } else {
                vec![Effect::Hide]
            }
        },
        Action::CloseAll => {
            manager.mark_all_as_read();
            vec![Effect::Hide]
        },
    }
}

/// What a notification's timer does when it fires: close the notification
/// if it is still unread, else nothing.
pub fn on_expiry(manager: &Manager, id: u32) -> (r: Option<Action>)
    requires
        manager.wf(),
    ensures
        r is Some <==> unread_in(manager@, id),
        r matches Some(a) ==> a == Action::Close(Some(id)),
{
    if manager.is_unread(id) {
        Some(Action::Close(Some(id)))
    } else {
        None
    }
}

/// Seconds that it takes to read a text, as `estimated_read_time` estimates
/// them with its default options.
pub uninterp spec fn read_seconds_of(text: Seq<char>) -> u64;

/// Relies on `estimated_read_time::text` with `Options::default()` and
/// `ReadTime::seconds`: the estimate depends on the text alone, and an empty
/// text holds no word.
#[verifier::external_body]
fn estimate_read_seconds(text: &str) -> (r: u64)
    ensures
        r == read_seconds_of(text@),
        text@.len() == 0 ==> r == 0,
{
    estimated_read_time::text(text, &estimated_read_time::Options::default()).seconds()
}

/// Milliseconds in `secs` seconds, saturated at the largest `u64`.
pub open spec fn secs_to_ms(secs: u64) -> u64 {
    if secs * 1000 <= u64::MAX {
        (secs * 1000) as u64
    } else {
        u64::MAX
    }
}

/// Whether the policy estimates the timeout from the time it takes to read
/// the message.
pub open spec fn uses_read_time(n: Notification, policy: UrgencyConfig) -> bool {
    n.expire_timeout is None && policy.auto_clear == Some(true)
}

/// The effective timeout in milliseconds: the one the sender asked for, else
/// the read time of the message (`0` when it could not be rendered) if the
/// policy asks for it, else the policy's timeout.
pub open spec fn timeout_of(n: Notification, policy: UrgencyConfig, read_secs: Option<u64>) -> u64 {
    match n.expire_timeout {
        Some(ms) => ms,
        None => if policy.auto_clear == Some(true) {
            match read_secs {
                Some(s) => secs_to_ms(s),
                None => 0,
            }
        } else {
            secs_to_ms(policy.timeout as u64)
        },
    }
}

fn saturating_secs_to_ms(secs: u64) -> (r: u64)
    ensures
        r == secs_to_ms(secs),
{
    if secs <= u64::MAX / 1000 {
        secs * 1000
    } else {
        u64::MAX
    }
}

/// Returns true if the timeout of `notification` depends on its rendered message.
pub fn needs_read_time(notification: &Notification, policy: &UrgencyConfig) -> (r: bool)
    ensures
        r == uses_read_time(*notification, *policy),
{
    notification.expire_timeout.is_none() && policy.auto_clear == Some(true)
}

/// Computes the effective timeout from the estimated read time of the
/// rendered message, `None` when rendering failed.
pub fn timeout_from_read_time(
    notification: &Notification,
    policy: &UrgencyConfig,
    read_secs: Option<u64>,
) -> (r: u64)
    ensures
        r == timeout_of(*notification, *policy, read_secs),
{
    match notification.expire_timeout {
        Some(ms) => ms,
        None => {
            if policy.auto_clear == Some(true) {
                match read_secs {
                    Some(s) => saturating_secs_to_ms(s),
                    None => 0,
                }
            } else {
                saturating_secs_to_ms(policy.timeout as u64)
            }
        },
    }
}

/// Computes the effective timeout of `notification` in milliseconds;
/// `rendered` is its rendered message, `None` when rendering failed.
pub fn effective_timeout(
    notification: &Notification,
    policy: &UrgencyConfig,
    rendered: Option<&str>,
) -> (r: u64)
    ensures
        r == timeout_of(
            *notification,
            *policy,
            match rendered {
                Some(t) => Some(read_seconds_of(t@)),
                None => None,
            },
        ),
{
    let read_secs = match rendered {
        Some(t) => Some(estimate_read_seconds(t)),
        None => None,
    };
    timeout_from_read_time(notification, policy, read_secs)
}

/// The store after showing the notifications of `ns` one after another.
pub open spec fn shown_all(s: Seq<Notification>, ns: Seq<Notification>) -> Seq<Notification>
    decreases ns.len(),
{
    if ns.len() == 0 {
        s
    } else {
        store_after(shown_all(s, ns.drop_last()), Action::Show(ns.last()))
    }
}

/// Showing notifications with distinct ids on an empty store keeps every
/// one of them, in the order they arrived.
pub proof fn lemma_shows_kept_in_order(ns: Seq<Notification>)
    requires
        ids_unique(ns),
    ensures
        shown_all(Seq::empty(), ns) == ns,
        shown_all(Seq::empty(), ns).len() == ns.len(),
    decreases ns.len(),
{
    if ns.len() > 0 {
        let prev = ns.drop_last();
        assert(ids_unique(prev));
        lemma_shows_kept_in_order(prev);
        let n = ns.last();
        assert(!has_id(prev, n.id)) by {
            if has_id(prev, n.id) {
                let i = choose|i: int| 0 <= i < prev.len() && prev[i].id == n.id;
                assert(ns[i].id == ns[ns.len() - 1].id);
            }
        }
        assert(prev.push(n) =~= ns);
    }
}

/// After `CloseAll` no notification is unread, whatever the store held.
pub proof fn lemma_close_all_leaves_none_unread(s: Seq<Notification>)
    ensures
        unread_count(store_after(s, Action::CloseAll)) == 0,
{
    lemma_all_marked_read_none_unread(s);
}

/// Showing `n` notifications whose ids a fresh service handed out, one after
/// another, leaves `n` notifications in the store with the ids `1`, ..., `n`
/// in the order they arrived.
pub proof fn lemma_new_id_shows_counted(ns: Seq<Notification>)
    requires
        ns.len() <= u32::MAX,
        forall|i: int| 0 <= i < ns.len() ==> Some(#[trigger] ns[i].id) == new_ids(0, ns.len())[i],
    ensures
        shown_all(Seq::empty(), ns).len() == ns.len(),
        forall|i: int|
            0 <= i < ns.len() ==> #[trigger] shown_all(Seq::empty(), ns)[i].id == i + 1,
{
    lemma_new_ids_count_up(ns.len());
    assert forall|i: int| 0 <= i < ns.len() implies ns[i].id == i + 1 by {
        assert(new_ids(0, ns.len())[i] == Some((i + 1) as u32));
    }
    lemma_shows_kept_in_order(ns);
}

/// Once `Close(Some(id))` is processed, the timer of that notification
/// finds it read and closes nothing more.
pub proof fn lemma_closed_before_expiry(s: Seq<Notification>, id: u32)
    requires
        ids_unique(s),
    ensures
        !unread_in(store_after(s, Action::Close(Some(id))), id),
{
    lemma_marked_read_not_unread(s, id);
}

} // verus!
