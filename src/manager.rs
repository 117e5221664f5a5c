use crate::notification::Notification;
use vstd::prelude::*;

verus! {

/// `n` with its read flag set to `read`.
pub open spec fn with_read(n: Notification, read: bool) -> Notification {
    Notification { is_read: read, ..n }
}

/// Number of unread notifications in `s`.
pub open spec fn unread_count(s: Seq<Notification>) -> nat
    decreases s.len(),
{
    if s.len() == 0 {
        0
    } else {
        unread_count(s.drop_last()) + if s.last().is_read {
            0nat
        } else {
            1nat
        }
    }
}

/// No two notifications of `s` share an id.
pub open spec fn ids_unique(s: Seq<Notification>) -> bool {
    forall|i: int, j: int|
        0 <= i < s.len() && 0 <= j < s.len() && i != j ==> s[i].id != s[j].id
}

/// Some notification of `s` has the id `id`.
pub open spec fn has_id(s: Seq<Notification>, id: u32) -> bool {
    exists|i: int| 0 <= i < s.len() && s[i].id == id
}

/// Index of the notification with the id `id`, or `-1` if there is none.
pub open spec fn position_of(s: Seq<Notification>, id: u32) -> int {
    if has_id(s, id) {
        choose|i: int| 0 <= i < s.len() && s[i].id == id
    } else {
        -1
    }
}

/// Whether the notification with the id `id` is in `s` and unread.
pub open spec fn unread_in(s: Seq<Notification>, id: u32) -> bool {
    has_id(s, id) && !s[position_of(s, id)].is_read
}

/// Every notification of `s` is read.
pub open spec fn all_read(s: Seq<Notification>) -> bool {
    forall|j: int| 0 <= j < s.len() ==> s[j].is_read
}

/// `i` is the index of the most recent unread notification of `s`.
pub open spec fn is_last_unread(s: Seq<Notification>, i: int) -> bool {
    &&& 0 <= i < s.len()
    &&& !s[i].is_read
    &&& forall|j: int| i < j < s.len() ==> s[j].is_read
}

/// `i` is the index of the oldest unread notification of `s`.
pub open spec fn is_first_unread(s: Seq<Notification>, i: int) -> bool {
    &&& 0 <= i < s.len()
    &&& !s[i].is_read
    &&& forall|j: int| 0 <= j < i ==> s[j].is_read
}

/// `s` with the read flag of entry `i` set to `read`.
pub open spec fn set_read(s: Seq<Notification>, i: int, read: bool) -> Seq<Notification> {
    s.update(i, with_read(s[i], read))
}

/// Index of the oldest unread notification of `s`.
pub open spec fn first_unread_index(s: Seq<Notification>) -> int {
    choose|i: int| is_first_unread(s, i)
}

/// Index of the most recent unread notification of `s`.
pub open spec fn last_unread_index(s: Seq<Notification>) -> int {
    choose|i: int| is_last_unread(s, i)
}

/// `s` after the most recent unread notification was marked read.
pub open spec fn marked_last_as_read(s: Seq<Notification>) -> Seq<Notification> {
    if all_read(s) {
        s
    } else {
        set_read(s, last_unread_index(s), true)
    }
}

/// `s` after one step back in the history: the oldest unread notification
/// becomes read and the one before it unread; when all are read, the most
/// recent one becomes unread.
pub open spec fn marked_next_as_unread(s: Seq<Notification>) -> Seq<Notification> {
    if all_read(s) {
        set_read(s, s.len() - 1, false)
    } else {
        let i = first_unread_index(s);
        if i > 0 {
            set_read(set_read(s, i, true), i - 1, false)
        } else {
            set_read(s, i, true)
        }
    }
}

/// `s` after the notification with the id `id`, if any, was marked read.
pub open spec fn marked_read(s: Seq<Notification>, id: u32) -> Seq<Notification> {
    if has_id(s, id) {
        set_read(s, position_of(s, id), true)
    } else {
        s
    }
}

/// `s` with every notification read.
pub open spec fn all_marked_read(s: Seq<Notification>) -> Seq<Notification> {
    s.map_values(|n: Notification| with_read(n, true))
}

/// `s` after adding `n`: an entry with the same id leaves, and `n` goes to the end.
pub open spec fn added(s: Seq<Notification>, n: Notification) -> Seq<Notification> {
    if has_id(s, n.id) {
        s.remove(position_of(s, n.id)).push(n)
    } else {
        s.push(n)
    }
}

/// Notification manager: the notifications in the order they were added.
#[derive(Debug)]
pub struct Manager {
    notifications: Vec<Notification>,
}

impl View for Manager {
    type V = Seq<Notification>;

    closed spec fn view(&self) -> Seq<Notification> {
        self.notifications@
    }
}

/// In a sequence with unique ids, the entry at `i` is the one `position_of` finds.
proof fn lemma_position_unique(s: Seq<Notification>, i: int)
    requires
        ids_unique(s),
        0 <= i < s.len(),
    ensures
        has_id(s, s[i].id),
        position_of(s, s[i].id) == i,
{
    assert(0 <= i < s.len() && s[i].id == s[i].id);
}

/// Changing read flags keeps the ids of a sequence.
proof fn lemma_set_read_ids(s: Seq<Notification>, i: int, read: bool)
    requires
        0 <= i < s.len(),
    ensures
        set_read(s, i, read).len() == s.len(),
        forall|j: int| 0 <= j < s.len() ==> #[trigger] set_read(s, i, read)[j].id == s[j].id,
{
}

impl Manager {
    /// The manager's invariant: ids are unique.
    pub open spec fn wf(&self) -> bool {
        ids_unique(self@)
    }

    /// Initializes the notification manager.
    pub fn init() -> (r: Manager)
        ensures
            r.wf(),
            r@ == Seq::<Notification>::empty(),
    {
        Manager { notifications: Vec::new() }
    }

    /// Returns the number of notifications.
    pub fn count(&self) -> (r: usize)
        ensures
            r == self@.len(),
    {
        self.notifications.len()
    }

    /// Index of the notification with the id `id`.
    fn find(&self, id: u32) -> (r: Option<usize>)
        requires
            self.wf(),
        ensures
            r is None <==> !has_id(self@, id),
            r matches Some(i) ==> i == position_of(self@, id),
    {
        let n = self.notifications.len();
        let mut i: usize = 0;
        while i < n
            invariant
                self.wf(),
                n == self@.len(),
                0 <= i <= n,
                forall|j: int| 0 <= j < i ==> self@[j].id != id,
            decreases n - i,
        {
            if self.notifications[i].id == id {
                proof {
                    lemma_position_unique(self@, i as int);
                }
                return Some(i);
            }
            i = i + 1;
        }
        None
    }

    /// Adds a new notification to manage.
    ///
    /// A notification that has the same id leaves the store; the new one goes
    /// to the end.
    pub fn add(&mut self, notification: Notification)
        requires
            old(self).wf(),
        ensures
            final(self).wf(),
            final(self)@ == added(old(self)@, notification),
    {
        let ghost s0 = self@;
        let ghost id = notification.id;
        match self.find(notification.id) {
            Some(i) => {
                self.notifications.remove(i);
                let ghost s1 = self@;
                assert(s1 == s0.remove(i as int));
                assert forall|j: int| 0 <= j < s1.len() implies s1[j].id != id by {
                    if j < i {
                        assert(s1[j] == s0[j]);
                    } else {
                        assert(s1[j] == s0[j + 1]);
                    }
                }
                self.notifications.push(notification);
                assert forall|a: int, b: int|
                    0 <= a < self@.len() && 0 <= b < self@.len() && a != b implies self@[a].id
                    != self@[b].id by {
                    let a0 = if a < i { a } else { a + 1 };
                    let b0 = if b < i { b } else { b + 1 };
                    if a < s1.len() && b < s1.len() {
                        assert(s1[a] == s0[a0]);
                        assert(s1[b] == s0[b0]);
                    }
                }
            },
            None => {
                self.notifications.push(notification);
                assert forall|a: int, b: int|
                    0 <= a < self@.len() && 0 <= b < self@.len() && a != b implies self@[a].id
                    != self@[b].id by {
                    if a == s0.len() {
                        assert(!(0 <= b < s0.len() && s0[b].id == id));
                    }
                    if b == s0.len() {
                        assert(!(0 <= a < s0.len() && s0[a].id == id));
                    }
                }
            },
        }
    }

    /// Sets the read flag of entry `i`.
    fn set_read_at(&mut self, i: usize, read: bool)
        requires
            old(self).wf(),
            i < old(self)@.len(),
        ensures
            final(self).wf(),
            final(self)@ == set_read(old(self)@, i as int, read),
    {
        proof {
            lemma_set_read_ids(self@, i as int, read);
        }
        self.notifications[i].is_read = read;
    }

    /// Index of the oldest unread notification, if any.
    fn first_unread(&self) -> (r: Option<usize>)
        ensures
            r is None <==> all_read(self@),
            r matches Some(i) ==> is_first_unread(self@, i as int),
    {
        let n = self.notifications.len();
        let mut i: usize = 0;
        while i < n
            invariant
                n == self@.len(),
                0 <= i <= n,
                forall|j: int| 0 <= j < i ==> self@[j].is_read,
            decreases n - i,
        {
            if !self.notifications[i].is_read {
                return Some(i);
            }
            i = i + 1;
        }
        None
    }

    /// Index of the most recent unread notification, if any.
    fn last_unread(&self) -> (r: Option<usize>)
        ensures
            r is None <==> all_read(self@),
            r matches Some(i) ==> is_last_unread(self@, i as int),
    {
        let mut i: usize = self.notifications.len();
        while i > 0
            invariant
                0 <= i <= self@.len(),
                forall|j: int| i <= j < self@.len() ==> self@[j].is_read,
            decreases i,
        {
            if !self.notifications[i - 1].is_read {
                return Some(i - 1);
            }
            i = i - 1;
        }
        None
    }

    /// Returns the most recent unread notification, or `None` if all are read.
    pub fn get_last_unread(&self) -> (r: Option<&Notification>)
        ensures
            r is None <==> all_read(self@),
            r matches Some(n) ==> exists|i: int| is_last_unread(self@, i) && *n == self@[i],
    {
        match self.last_unread() {
            Some(i) => Some(&self.notifications[i]),
            None => None,
        }
    }

    /// Marks the most recent unread notification as read; nothing changes if
    /// all are read.
    pub fn mark_last_as_read(&mut self)
        requires
            old(self).wf(),
        ensures
            final(self).wf(),
            final(self)@ == marked_last_as_read(old(self)@),
    {
        if let Some(i) = self.last_unread() {
            proof {
                let c = last_unread_index(self@);
                assert(is_last_unread(self@, c));
                assert(c == i);
            }
            self.set_read_at(i, true);
        }
    }

    /// Steps one notification back in the history.
    ///
    /// The oldest unread notification becomes read and the one before it
    /// becomes unread; the result is false when there is none before it. When
    /// all are read, the most recent one becomes unread again and the result
    /// is true.
    pub fn mark_next_as_unread(&mut self) -> (r: bool)
        requires
            old(self).wf(),
            old(self)@.len() > 0,
        ensures
            final(self).wf(),
            final(self)@ == marked_next_as_unread(old(self)@),
            r == old(self)@[0].is_read,
    {
        match self.first_unread() {
            None => {
                let len = self.notifications.len();
                self.set_read_at(len - 1, false);
                true
            },
            Some(i) => {
                proof {
                    let c = first_unread_index(self@);
                    assert(is_first_unread(self@, c));
                    assert(c == i);
                }
                self.set_read_at(i, true);
                if i > 0 {
                    self.set_read_at(i - 1, false);
                    true
                } else {
                    false
                }
            },
        }
    }

    /// Marks the notification with the given id as read; nothing changes if
    /// there is none.
    pub fn mark_as_read(&mut self, id: u32)
        requires
            old(self).wf(),
        ensures
            final(self).wf(),
            final(self)@ == marked_read(old(self)@, id),
    {
        if let Some(i) = self.find(id) {
            self.set_read_at(i, true);
        }
    }

    /// Marks all the notifications as read.
    pub fn mark_all_as_read(&mut self)
        requires
            old(self).wf(),
        ensures
            final(self).wf(),
            final(self)@ == all_marked_read(old(self)@),
    {
        let ghost s0 = self@;
        let n = self.notifications.len();
        let mut i: usize = 0;
        while i < n
            invariant
                n == s0.len(),
                self@.len() == s0.len(),
                0 <= i <= n,
                forall|j: int| 0 <= j < i ==> self@[j] == with_read(s0[j], true),
                forall|j: int| i <= j < n ==> self@[j] == s0[j],
            decreases n - i,
        {
            self.notifications[i].is_read = true;
            i = i + 1;
        }
        assert(self@ =~= all_marked_read(s0));
    }

    /// Returns the number of unread notifications.
    pub fn get_unread_count(&self) -> (r: usize)
        ensures
            r == unread_count(self@),
    {
        let n = self.notifications.len();
        let mut i: usize = 0;
        let mut count: usize = 0;
        while i < n
            invariant
                n == self@.len(),
                0 <= i <= n,
                count <= i,
                count == unread_count(self@.subrange(0, i as int)),
            decreases n - i,
        {
            assert(self@.subrange(0, i + 1).drop_last() =~= self@.subrange(0, i as int));
            if !self.notifications[i].is_read {
                count = count + 1;
            }
            i = i + 1;
        }
        assert(self@.subrange(0, n as int) =~= self@);
        count
    }

    /// Returns true if the notification with the given id is present and unread.
    pub fn is_unread(&self, id: u32) -> (r: bool)
        requires
            self.wf(),
        ensures
            r == unread_in(self@, id),
    {
        match self.find(id) {
            Some(i) => !self.notifications[i].is_read,
            None => false,
        }
    }
}

/// A sequence in which every notification is read holds no unread one.
pub proof fn lemma_all_read_none_unread(s: Seq<Notification>)
    requires
        all_read(s),
    ensures
        unread_count(s) == 0,
    decreases s.len(),
{
    if s.len() > 0 {
        lemma_all_read_none_unread(s.drop_last());
    }
}

/// After every notification is marked read, none is unread.
pub proof fn lemma_all_marked_read_none_unread(s: Seq<Notification>)
    ensures
        unread_count(all_marked_read(s)) == 0,
{
    lemma_all_read_none_unread(all_marked_read(s));
}

/// Marking a notification read twice leaves the store as marking it once,
/// so the unread count is the same too.
pub proof fn lemma_mark_as_read_idempotent(s: Seq<Notification>, id: u32)
    requires
        ids_unique(s),
    ensures
        marked_read(marked_read(s, id), id) == marked_read(s, id),
        unread_count(marked_read(marked_read(s, id), id)) == unread_count(marked_read(s, id)),
{
    if has_id(s, id) {
        let p = position_of(s, id);
        let s1 = set_read(s, p, true);
        lemma_set_read_ids(s, p, true);
        assert(ids_unique(s1));
        lemma_position_unique(s1, p);
        assert(set_read(s1, p, true) =~= s1);
    }
}

/// Once marked read, the notification with the id `id` is not unread.
pub proof fn lemma_marked_read_not_unread(s: Seq<Notification>, id: u32)
    requires
        ids_unique(s),
    ensures
        !unread_in(marked_read(s, id), id),
{
    if has_id(s, id) {
        let p = position_of(s, id);
        lemma_set_read_ids(s, p, true);
        lemma_position_unique(set_read(s, p, true), p);
    }
}

/// A notification that was never added is not unread.
pub proof fn lemma_unknown_id_not_unread(s: Seq<Notification>, id: u32)
    requires
        !has_id(s, id),
    ensures
        !unread_in(s, id),
{
}

} // verus!
