use crate::notification::{urgency_of, Action, Notification, Urgency};
use vstd::prelude::*;

verus! {

/// Well-known name of the notification service.
pub const NOTIFICATION_INTERFACE: &'static str = "org.freedesktop.Notifications";

/// Object path of the notification service.
pub const NOTIFICATION_PATH: &'static str = "/org/freedesktop/Notifications";

/// Object path of the control surface.
pub const CONTROL_PATH: &'static str = "/org/freedesktop/Notifications/ctl";

/// Name of the control interface.
pub const CONTROL_INTERFACE: &'static str = "org.freedesktop.NotificationControl";

/// Version of the notification specification that the service follows.
pub const NOTIFICATION_SPEC_VERSION: &'static str = "1.2";

/// Milliseconds that a client waits for the reply to `Notify`.
pub const NOTIFY_CALL_TIMEOUT_MS: u64 = 1000;

/// Arguments of a `Notify` call.
pub struct NotifyRequest {
    /// Name of the application that sends the notification.
    pub app_name: String,
    /// Id of the notification to replace, `0` for a new one.
    pub replaces_id: u32,
    /// Icon of the application.
    pub app_icon: String,
    /// Summary text.
    pub summary: String,
    /// Body.
    pub body: String,
    /// Action identifiers and labels.
    pub actions: Vec<String>,
    /// The `urgency` hint, if present as a byte.
    pub urgency: Option<u8>,
    /// Timeout in milliseconds; `-1` leaves it to the server.
    pub expire_timeout: i32,
}

/// Arguments of a `CloseNotification` call, with the time to wait for the reply.
pub struct CloseRequest {
    /// Id of the notification to close.
    pub id: u32,
    /// Milliseconds to wait for the reply.
    pub timeout_ms: u64,
}

/// The id that a request gets, given the last id handed out: the one it
/// replaces, else the next one; `None` once the ids ran out.
pub open spec fn assigned_id(last: u32, replaces_id: u32) -> Option<u32> {
    if replaces_id > 0 {
        Some(replaces_id)
    } else if last < u32::MAX {
        Some((last + 1) as u32)
    } else {
        None
    }
}

/// The last id handed out after a request.
pub open spec fn last_after(last: u32, replaces_id: u32) -> u32 {
    if replaces_id == 0 && last < u32::MAX {
        (last + 1) as u32
    } else {
        last
    }
}

/// The timeout that a request asks for: only a positive value counts.
pub open spec fn requested_timeout(expire_timeout: i32) -> Option<u64> {
    if expire_timeout > 0 {
        Some(expire_timeout as u64)
    } else {
        None
    }
}

/// The urgency that a request asks for.
pub open spec fn requested_urgency(hint: Option<u8>) -> Urgency {
    match hint {
        Some(v) => urgency_of(v as u64),
        None => Urgency::Normal,
    }
}

/// The notification that a request yields under the id `id`.
pub open spec fn notification_of(req: NotifyRequest, id: u32, timestamp: u64) -> Notification {
    Notification {
        id,
        app_name: req.app_name,
        summary: req.summary,
        body: req.body,
        expire_timeout: requested_timeout(req.expire_timeout),
        urgency: requested_urgency(req.urgency),
        is_read: false,
        timestamp,
    }
}

/// The notification service: turns requests into notifications and hands out ids.
pub struct Notifications {
    last_id: u32,
}

impl View for Notifications {
    type V = u32;

    /// The last id handed out, `0` before the first.
    closed spec fn view(&self) -> u32 {
        self.last_id
    }
}

impl Notifications {
    /// Creates the service; the first new notification gets the id `1`.
    pub fn new() -> (r: Notifications)
        ensures
            r@ == 0,
    {
        Notifications { last_id: 0 }
    }

    /// Hands out the id for a request: `replaces_id` if it is not `0`, else
    /// one more than the last id handed out.
    pub fn next_id(&mut self, replaces_id: u32) -> (r: Option<u32>)
        ensures
            r == assigned_id(old(self)@, replaces_id),
            final(self)@ == last_after(old(self)@, replaces_id),
            r matches Some(id) ==> id != 0,
    {
        if replaces_id > 0 {
            Some(replaces_id)
        } else if self.last_id < u32::MAX {
            self.last_id = self.last_id + 1;
            Some(self.last_id)
        } else {
            None
        }
    }

    /// Builds the notification for a `Notify` request received at
    /// `timestamp` (seconds since the epoch); `None` once the ids ran out.
    pub fn notify(&mut self, request: NotifyRequest, timestamp: u64) -> (r: Option<Notification>)
        ensures
            final(self)@ == last_after(old(self)@, request.replaces_id),
            r is None <==> assigned_id(old(self)@, request.replaces_id) is None,
            r matches Some(n) ==> assigned_id(old(self)@, request.replaces_id) == Some(n.id)
                && n == notification_of(request, n.id, timestamp),
    {
        let id = match self.next_id(request.replaces_id) {
            Some(id) => id,
            None => return None,
        };
        let urgency = match request.urgency {
            Some(v) => Urgency::from_hint(v as u64),
            None => Urgency::Normal,
        };
        let expire_timeout = if request.expire_timeout > 0 {
            Some(request.expire_timeout as u64)
        } else {
            None
        };
        Some(
            Notification {
                id,
                app_name: request.app_name,
                summary: request.summary,
                body: request.body,
                expire_timeout,
                urgency,
                is_read: false,
                timestamp,
            },
        )
    }

    /// Returns the capabilities of the server.
    pub fn get_capabilities(&self) -> (r: Vec<String>)
        ensures
            r@.map_values(|s: String| s@) == seq!["body"@, "body-markup"@],
    {
        let r = vec!["body".to_string(), "body-markup".to_string()];
        assert(r@.map_values(|s: String| s@) =~= seq!["body"@, "body-markup"@]);
        r
    }

    /// Returns the server's name, vendor, version and specification version.
    pub fn get_server_information(&self) -> (r: (String, String, String, String))
        ensures
            r.0@ == "runst"@,
            r.2@ == "0.1.7"@,
            r.3@ == "1.2"@,
    {
        (
            "runst".to_string(),
            "Orhun Parmaksız".to_string(),
            "0.1.7".to_string(),
            NOTIFICATION_SPEC_VERSION.to_string(),
        )
    }

    /// The action for a `CloseNotification` request.
    pub fn close_notification(&self, id: u32) -> (r: Action)
        ensures
            r == Action::Close(Some(id)),
    {
        Action::Close(Some(id))
    }
}

/// The control surface: parameterless requests for the history and closing.
pub struct NotificationControl {}

impl NotificationControl {
    /// Creates the control surface.
    pub fn new() -> NotificationControl {
        NotificationControl {}
    }

    /// Shows the most recent notification entry.
    pub fn history(&self) -> (r: Action)
        ensures
            r == Action::ShowLast,
    {
        Action::ShowLast
    }

    /// Closes the most recently shown notification.
    pub fn close(&self) -> (r: Action)
        ensures
            r == Action::Close(None),
    {
        Action::Close(None)
    }

    /// Closes all the notifications.
    pub fn close_all(&self) -> (r: Action)
        ensures
            r == Action::CloseAll,
    {
        Action::CloseAll
    }
}

/// A client of the notification service: builds the calls that it sends.
pub struct DbusClient {
    /// Well-known name of the service.
    pub destination: String,
    /// Object path of the service.
    pub path: String,
    /// Interface that the methods belong to.
    pub interface: String,
}

impl DbusClient {
    /// Initializes the client for the standard service name and path.
    pub fn init() -> (r: DbusClient)
        ensures
            r.destination@ == NOTIFICATION_INTERFACE@,
            r.path@ == NOTIFICATION_PATH@,
            r.interface@ == NOTIFICATION_INTERFACE@,
    {
        DbusClient {
            destination: NOTIFICATION_INTERFACE.to_string(),
            path: NOTIFICATION_PATH.to_string(),
            interface: NOTIFICATION_INTERFACE.to_string(),
        }
    }

    /// Builds a `Notify` call for a new notification of low urgency, with no
    /// icon and no actions.
    pub fn notify(&self, app_name: String, summary: String, body: String, expire_timeout: i32) -> (r:
        NotifyRequest)
        ensures
            r.app_name == app_name,
            r.replaces_id == 0,
            r.app_icon@ == Seq::<char>::empty(),
            r.summary == summary,
            r.body == body,
            r.actions@.len() == 0,
            r.urgency == Some(0u8),
            r.expire_timeout == expire_timeout,
    {
        NotifyRequest {
            app_name,
            replaces_id: 0,
            app_icon: String::new(),
            summary,
            body,
            actions: Vec::new(),
            urgency: Some(0),
            expire_timeout,
        }
    }

    /// Builds a `CloseNotification` call that waits `timeout_ms` milliseconds
    /// for the reply.
    pub fn close_notification(&self, id: u32, timeout_ms: u64) -> (r: CloseRequest)
        ensures
            r.id == id,
            r.timeout_ms == timeout_ms,
    {
        CloseRequest { id, timeout_ms }
    }
}

/// The last id handed out after `k` requests for new ids, starting from `last`.
pub open spec fn last_after_new(last: u32, k: nat) -> u32
    decreases k,
{
    if k == 0 {
        last
    } else {
        last_after(last_after_new(last, (k - 1) as nat), 0)
    }
}

/// The ids handed out to `k` requests for new ids, starting from `last`.
pub open spec fn new_ids(last: u32, k: nat) -> Seq<Option<u32>>
    decreases k,
{
    if k == 0 {
        Seq::empty()
    } else {
        new_ids(last, (k - 1) as nat).push(assigned_id(last_after_new(last, (k - 1) as nat), 0))
    }
}

/// A fresh service hands the ids `1`, ..., `k` to `k` requests for new
/// notifications, in the order the requests arrive.
pub proof fn lemma_new_ids_count_up(k: nat)
    requires
        k <= u32::MAX,
    ensures
        last_after_new(0, k) == k,
        new_ids(0, k).len() == k,
        forall|i: int| 0 <= i < k ==> #[trigger] new_ids(0, k)[i] == Some((i + 1) as u32),
    decreases k,
{
    if k > 0 {
        lemma_new_ids_count_up((k - 1) as nat);
    }
}

} // verus!
