use regex::Regex;
use vstd::prelude::*;

verus! {

/// Possible urgency levels for the notification.
#[derive(Clone, Copy, Debug, PartialEq, Eq, Structural)]
pub enum Urgency {
    /// Low urgency.
    Low,
    /// Normal urgency (default).
    Normal,
    /// Critical urgency.
    Critical,
}

/// The urgency that a hint value stands for: `0`, `1` and `2` name a level,
/// anything else falls back to the default.
pub open spec fn urgency_of(value: u64) -> Urgency {
    if value == 0 {
        Urgency::Low
    } else if value == 2 {
        Urgency::Critical
    } else {
        Urgency::Normal
    }
}

impl Urgency {
    /// The name of the level.
    pub open spec fn name(self) -> Seq<char> {
        match self {
            Urgency::Low => "Low"@,
            Urgency::Normal => "Normal"@,
            Urgency::Critical => "Critical"@,
        }
    }

    /// Maps a hint value to an urgency level.
    pub fn from_hint(value: u64) -> (r: Urgency)
        ensures
            r == urgency_of(value),
    {
        match value {
            0 => Urgency::Low,
            1 => Urgency::Normal,
            2 => Urgency::Critical,
            _ => Urgency::default(),
        }
    }

    /// Returns the name of the level.
    pub fn as_str(&self) -> (r: &'static str)
        ensures
            r@ == self.name(),
    {
        match self {
            Urgency::Low => "Low",
            Urgency::Normal => "Normal",
            Urgency::Critical => "Critical",
        }
    }
}

impl From<u64> for Urgency {
    fn from(value: u64) -> (r: Urgency) {
        Urgency::from_hint(value)
    }
}

impl vstd::std_specs::convert::FromSpecImpl<u64> for Urgency {
    open spec fn obeys_from_spec() -> bool {
        true
    }

    open spec fn from_spec(v: u64) -> Urgency {
        urgency_of(v)
    }
}

impl Default for Urgency {
    fn default() -> (r: Urgency)
        ensures
            r == Urgency::Normal,
    {
        Urgency::Normal
    }
}


/// Representation of a notification.
#[derive(Clone, Debug)]
pub struct Notification {
    /// The notification id.
    pub id: u32,
    /// Name of the application that sends the notification.
    pub app_name: String,
    /// Summary text.
    pub summary: String,
    /// Body.
    pub body: String,
    /// The timeout that the sender asked for, in milliseconds.
    pub expire_timeout: Option<u64>,
    /// Urgency.
    pub urgency: Urgency,
    /// Whether the notification is read.
    pub is_read: bool,
    /// Time that the notification was created, in seconds since the epoch.
    pub timestamp: u64,
}

impl Notification {
    /// Returns a copy of the notification.
    pub fn duplicate(&self) -> (r: Notification)
        ensures
            r == *self,
    {
        Notification {
            id: self.id,
            app_name: self.app_name.clone(),
            summary: self.summary.clone(),
            body: self.body.clone(),
            expire_timeout: self.expire_timeout,
            urgency: self.urgency,
            is_read: self.is_read,
            timestamp: self.timestamp,
        }
    }

    /// Returns true if the given filter matches the notification message.
    pub fn matches_filter(&self, filter: &NotificationFilter) -> (r: bool)
        ensures
            r == filter.accepts(self),
    {
        if let Some(p) = &filter.app_name {
            if !p.is_match(&self.app_name) {
                return false;
            }
        }
        if let Some(p) = &filter.summary {
            if !p.is_match(&self.summary) {
                return false;
            }
        }
        if let Some(p) = &filter.body {
            if !p.is_match(&self.body) {
                return false;
            }
        }
        true
    }
}

impl Default for Notification {
    fn default() -> (r: Notification)
        ensures
            r.id == 0,
            r.app_name@ == Seq::<char>::empty(),
            r.summary@ == Seq::<char>::empty(),
            r.body@ == Seq::<char>::empty(),
            r.expire_timeout is None,
            r.urgency == Urgency::Normal,
            !r.is_read,
            r.timestamp == 0,
    {
        Notification {
            id: 0,
            app_name: String::new(),
            summary: String::new(),
            body: String::new(),
            expire_timeout: None,
            urgency: Urgency::Normal,
            is_read: false,
            timestamp: 0,
        }
    }
}

#[verifier::external_type_specification]
#[verifier::external_body]
pub struct ExRegex(Regex);

/// Whether a text is a valid regular expression.
pub uninterp spec fn regex_is_valid(pattern: Seq<char>) -> bool;

/// Whether the regular expression written as `pattern` matches somewhere in `text`.
pub uninterp spec fn regex_finds(pattern: Seq<char>, text: Seq<char>) -> bool;

/// Relies on `regex::Regex::new`: it accepts or refuses a pattern by its text alone.
#[verifier::external_body]
fn compile_regex(pattern: &str) -> (r: Option<Regex>)
    ensures
        r is Some <==> regex_is_valid(pattern@),
{
    Regex::new(pattern).ok()
}

/// A regular expression together with the text it was compiled from.
///
/// The fields are private and only `Pattern::new` builds a value, so the
/// compiled expression always comes from `source`.
#[derive(Debug)]
pub struct Pattern {
    source: String,
    compiled: Regex,
}

impl View for Pattern {
    type V = Seq<char>;

    closed spec fn view(&self) -> Seq<char> {
        self.source@
    }
}

/// Relies on `regex::Regex::is_match`: whether the expression matches anywhere
/// in the text depends on the expression's source text and the text alone, and
/// a `Pattern` holds the expression compiled from its source.
#[verifier::external_body]
fn regex_is_match(p: &Pattern, text: &str) -> (r: bool)
    ensures
        r == regex_finds(p@, text@),
{
    p.compiled.is_match(text)
}

impl Pattern {
    /// Compiles a regular expression; `None` if the text is not a valid one.
    pub fn new(source: &str) -> (r: Option<Pattern>)
        ensures
            r is Some <==> regex_is_valid(source@),
            r matches Some(p) ==> p@ == source@,
    {
        match compile_regex(source) {
            Some(compiled) => Some(Pattern { source: source.to_string(), compiled }),
            None => None,
        }
    }

    /// Returns the text that the expression was compiled from.
    pub fn as_str(&self) -> (r: &str)
        ensures
            r@ == self@,
    {
        self.source.as_str()
    }

    /// Returns true if the expression matches somewhere in `text`.
    pub fn is_match(&self, text: &str) -> (r: bool)
        ensures
            r == regex_finds(self@, text@),
    {
        regex_is_match(self, text)
    }
}

/// Whether an optional pattern lets a text through: an absent pattern lets
/// everything through.
pub open spec fn pattern_accepts(p: Option<Pattern>, text: Seq<char>) -> bool {
    match p {
        None => true,
        Some(p) => regex_finds(p@, text),
    }
}

/// Notification message filter.
#[derive(Debug)]
pub struct NotificationFilter {
    /// Name of the application.
    pub app_name: Option<Pattern>,
    /// Summary text.
    pub summary: Option<Pattern>,
    /// Body.
    pub body: Option<Pattern>,
}

impl NotificationFilter {
    /// Whether every pattern of the filter matches its field of `n`.
    pub open spec fn accepts(&self, n: &Notification) -> bool {
        &&& pattern_accepts(self.app_name, n.app_name@)
        &&& pattern_accepts(self.summary, n.summary@)
        &&& pattern_accepts(self.body, n.body@)
    }
}

/// Possible actions for a notification.
#[derive(Debug)]
pub enum Action {
    /// Show a notification.
    Show(Notification),
    /// Show the last notification.
    ShowLast,
    /// Close a notification: the given one, or the most recent unread one.
    Close(Option<u32>),
    /// Close all the notifications.
    CloseAll,
}

} // verus!
