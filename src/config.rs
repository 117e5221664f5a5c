use crate::notification::{Notification, NotificationFilter, Urgency};
use colorsys::Rgb;
use tracing::Level;
use vstd::prelude::*;
use vstd::string::*;

verus! {

#[verifier::external_type_specification]
#[verifier::external_body]
pub struct ExLevel(Level);

#[verifier::external_type_specification]
#[verifier::external_body]
pub struct ExRgb(Rgb);

/// Configuration.
pub struct Config {
    /// Global configuration.
    pub global: GlobalConfig,
    /// Configuration for low urgency.
    pub urgency_low: UrgencyConfig,
    /// Configuration for normal urgency.
    pub urgency_normal: UrgencyConfig,
    /// Configuration for critical urgency.
    pub urgency_critical: UrgencyConfig,
}

impl Config {
    /// The configuration that applies to notifications of the given urgency.
    pub open spec fn urgency_config(&self, urgency: Urgency) -> UrgencyConfig {
        match urgency {
            Urgency::Low => self.urgency_low,
            Urgency::Normal => self.urgency_normal,
            Urgency::Critical => self.urgency_critical,
        }
    }

    /// Returns the appropriate urgency configuration.
    pub fn get_urgency_config(&self, urgency: &Urgency) -> (r: &UrgencyConfig)
        ensures
            *r == self.urgency_config(*urgency),
    {
        match urgency {
            Urgency::Low => &self.urgency_low,
            Urgency::Normal => &self.urgency_normal,
            Urgency::Critical => &self.urgency_critical,
        }
    }
}

/// Global configuration.
pub struct GlobalConfig {
    /// Log verbosity.
    pub log_verbosity: Level,
    /// Whether a startup notification should be shown.
    pub startup_notification: bool,
    /// Geometry of the notification window.
    pub geometry: Geometry,
    /// Whether the window will be resized to wrap the content.
    pub wrap_content: bool,
    /// Text font.
    pub font: String,
    /// Template for the notification message.
    pub template: String,
}

/// Window geometry.
#[derive(Clone, Copy, Debug, PartialEq, Eq, Structural)]
pub struct Geometry {
    /// Width of the window.
    pub width: u32,
    /// Height of the window.
    pub height: u32,
    /// X coordinate.
    pub x: u32,
    /// Y coordinate.
    pub y: u32,
}

/// Why a geometry could not be read.
#[derive(Debug)]
pub enum ConfigError {
    /// The text is not of the form `WIDTHxHEIGHT+X+Y`.
    Geometry(String),
}

/// Whether `c` is an ASCII decimal digit.
pub open spec fn is_digit(c: char) -> bool {
    '0' <= c <= '9'
}

/// Whether `t` is a non-empty run of decimal digits.
pub open spec fn is_digits(t: Seq<char>) -> bool {
    t.len() > 0 && forall|i: int| 0 <= i < t.len() ==> is_digit(#[trigger] t[i])
}

/// The value that the decimal digits of `t` spell.
pub open spec fn digits_value(t: Seq<char>) -> int
    decreases t.len(),
{
    if t.len() == 0 {
        0
    } else {
        digits_value(t.drop_last()) * 10 + (t.last() as int - '0' as int)
    }
}

/// The `u32` that `t` spells in decimal digits, if it spells one.
pub open spec fn number_of(t: Seq<char>) -> Option<u32> {
    if is_digits(t) && digits_value(t) <= u32::MAX {
        Some(digits_value(t) as u32)
    } else {
        None
    }
}

/// Whether `s` spells the geometry `g` as `WIDTHxHEIGHT+X+Y`.
pub open spec fn spells_geometry(s: Seq<char>, g: Geometry) -> bool {
    exists|a: Seq<char>, b: Seq<char>, c: Seq<char>, d: Seq<char>|
        #![trigger number_of(a), number_of(b), number_of(c), number_of(d)]
        {
            &&& s == a + seq!['x'] + b + seq!['+'] + c + seq!['+'] + d
            &&& number_of(a) == Some(g.width)
            &&& number_of(b) == Some(g.height)
            &&& number_of(c) == Some(g.x)
            &&& number_of(d) == Some(g.y)
        }
}

/// A prefix of a run of digits spells no more than the whole run.
proof fn lemma_prefix_value_le(t: Seq<char>, k: int)
    requires
        forall|i: int| 0 <= i < t.len() ==> is_digit(#[trigger] t[i]),
        0 <= k <= t.len(),
    ensures
        0 <= digits_value(t.subrange(0, k)) <= digits_value(t),
    decreases t.len() - k,
{
    if k < t.len() {
        lemma_prefix_value_le(t, k + 1);
        assert(t.subrange(0, k + 1).drop_last() =~= t.subrange(0, k));
    } else {
        assert(t.subrange(0, k) =~= t);
    }
    lemma_value_nonneg(t.subrange(0, k));
}

/// Digits spell a value of at least zero.
proof fn lemma_value_nonneg(t: Seq<char>)
    requires
        forall|i: int| 0 <= i < t.len() ==> is_digit(#[trigger] t[i]),
    ensures
        digits_value(t) >= 0,
    decreases t.len(),
{
    if t.len() > 0 {
        lemma_value_nonneg(t.drop_last());
    }
}

/// Where `t` spells a geometry, the first `x` and the two `+` after it that a
/// left-to-right search finds split it into the four numbers.
proof fn lemma_separators_found(t: Seq<char>, g: Geometry, i: int, j: int, k: int)
    requires
        spells_geometry(t, g),
        0 <= i <= t.len(),
        forall|m: int| 0 <= m < i ==> t[m] != 'x',
        i < t.len() ==> t[i] == 'x',
        i < t.len() ==> i + 1 <= j <= t.len(),
        i < t.len() ==> forall|m: int| i + 1 <= m < j ==> t[m] != '+',
        i < t.len() && j < t.len() ==> t[j] == '+',
        i < t.len() && j < t.len() ==> j + 1 <= k <= t.len(),
        i < t.len() && j < t.len() ==> forall|m: int| j + 1 <= m < k ==> t[m] != '+',
        i < t.len() && j < t.len() && k < t.len() ==> t[k] == '+',
    ensures
        i < j < k < t.len(),
        number_of(t.subrange(0, i)) == Some(g.width),
        number_of(t.subrange(i + 1, j)) == Some(g.height),
        number_of(t.subrange(j + 1, k)) == Some(g.x),
        number_of(t.subrange(k + 1, t.len() as int)) == Some(g.y),
{
    let (a, b, c, d) = choose|a: Seq<char>, b: Seq<char>, c: Seq<char>, d: Seq<char>|
        {
            &&& t == a + seq!['x'] + b + seq!['+'] + c + seq!['+'] + d
            &&& number_of(a) == Some(g.width)
            &&& number_of(b) == Some(g.height)
            &&& number_of(c) == Some(g.x)
            &&& number_of(d) == Some(g.y)
        };
    let ia = a.len() as int;
    let jb = ia + 1 + b.len();
    let kc = jb + 1 + c.len();
    assert(t.len() == kc + 1 + d.len());
    assert(t[ia] == 'x');
    assert(forall|m: int| 0 <= m < ia ==> t[m] == a[m]);
    assert(i == ia) by {
        if i < ia {
            assert(is_digit(a[i]));
        }
    }
    assert(t[jb] == '+');
    assert(forall|m: int| ia + 1 <= m < jb ==> t[m] == b[m - ia - 1]);
    assert(j == jb) by {
        if j < jb {
            assert(is_digit(b[j - ia - 1]));
        }
    }
    assert(t[kc] == '+');
    assert(forall|m: int| jb + 1 <= m < kc ==> t[m] == c[m - jb - 1]);
    assert(k == kc) by {
        if k < kc {
            assert(is_digit(c[k - jb - 1]));
        }
    }
    assert(t.subrange(0, ia) =~= a);
    assert(t.subrange(ia + 1, jb) =~= b);
    assert(t.subrange(jb + 1, kc) =~= c);
    assert(t.subrange(kc + 1, t.len() as int) =~= d);
}

/// Reads the `u32` that the characters `start..end` of `s` spell.
fn parse_u32(s: &str, start: usize, end: usize) -> (r: Option<u32>)
    requires
        start <= end <= s@.len(),
    ensures
        r == number_of(s@.subrange(start as int, end as int)),
{
    let ghost t = s@.subrange(start as int, end as int);
    if start == end {
        return None;
    }
    let mut value: u64 = 0;
    let mut i: usize = start;
    while i < end
        invariant
            start <= i <= end <= s@.len(),
            t == s@.subrange(start as int, end as int),
            forall|j: int| 0 <= j < i - start ==> is_digit(#[trigger] t[j]),
            value == digits_value(t.subrange(0, i - start)),
            value <= u32::MAX,
        decreases end - i,
    {
        let c = s.get_char(i);
        assert(c == t[i - start]);
        if c < '0' || c > '9' {
            return None;
        }
        assert(t.subrange(0, i - start + 1).drop_last() =~= t.subrange(0, i - start));
        let next = value * 10 + (c as u64 - '0' as u64);
        if next > u32::MAX as u64 {
            proof {
                let k = i - start + 1;
                if is_digits(t) {
                    lemma_prefix_value_le(t, k);
                }
            }
            return None;
        }
        value = next;
        i = i + 1;
    }
    assert(t.subrange(0, end - start) =~= t);
    Some(value as u32)
}

/// Index of the first `c` in `s` at `from` or after, or the length of `s`.
fn find_char(s: &str, c: char, from: usize) -> (r: usize)
    requires
        from <= s@.len(),
    ensures
        from <= r <= s@.len(),
        forall|j: int| from <= j < r ==> s@[j] != c,
        r < s@.len() ==> s@[r as int] == c,
{
    let len = s.unicode_len();
    let mut i = from;
    while i < len
        invariant
            len == s@.len(),
            from <= i <= len,
            forall|j: int| from <= j < i ==> s@[j] != c,
        decreases len - i,
    {
        if s.get_char(i) == c {
            return i;
        }
        i = i + 1;
    }
    i
}

impl Geometry {
    /// Reads a geometry written as `WIDTHxHEIGHT+X+Y`, each a `u32` in
    /// decimal digits.
    pub fn parse(s: &str) -> (r: Result<Geometry, ConfigError>)
        ensures
            r matches Ok(g) ==> spells_geometry(s@, g),
            r is Err <==> forall|g: Geometry| !spells_geometry(s@, g),
    {
        let len = s.unicode_len();
        let i = find_char(s, 'x', 0);
        let j = if i < len {
            find_char(s, '+', i + 1)
        } else {
            len
        };
        let k = if j < len {
            find_char(s, '+', j + 1)
        } else {
            len
        };
        let parsed = if k < len {
            match (
                parse_u32(s, 0, i),
                parse_u32(s, i + 1, j),
                parse_u32(s, j + 1, k),
                parse_u32(s, k + 1, len),
            ) {
                (Some(width), Some(height), Some(x), Some(y)) => Some(
                    Geometry { width, height, x, y },
                ),
                _ => None,
            }
        } else {
            None
        };
        proof {
            let t = s@;
            if let Some(g) = parsed {
                let a = t.subrange(0, i as int);
                let b = t.subrange(i + 1, j as int);
                let c = t.subrange(j + 1, k as int);
                let d = t.subrange(k + 1, len as int);
                assert(t =~= a + seq!['x'] + b + seq!['+'] + c + seq!['+'] + d);
                assert(spells_geometry(t, g));
            } else {
                assert forall|g: Geometry| !spells_geometry(t, g) by {
                    if spells_geometry(t, g) {
                        lemma_separators_found(t, g, i as int, j as int, k as int);
                    }
                }
            }
        }
        match parsed {
            Some(g) => Ok(g),
            None => Err(ConfigError::Geometry("expected WIDTHxHEIGHT+X+Y".to_string())),
        }
    }
}

impl std::str::FromStr for Geometry {
    type Err = ConfigError;

    fn from_str(s: &str) -> Result<Geometry, ConfigError> {
        Geometry::parse(s)
    }
}

/// Urgency configuration.
pub struct UrgencyConfig {
    /// Background color.
    pub background: Rgb,
    /// Foreground color.
    pub foreground: Rgb,
    /// Timeout in seconds; `0` keeps the notification until it is closed.
    pub timeout: u32,
    /// Whether the timeout is estimated from the time it takes to read the message.
    pub auto_clear: Option<bool>,
    /// Text that stands for the urgency in messages.
    pub text: Option<String>,
    /// Custom OS commands to run.
    pub custom_commands: Option<Vec<CustomCommand>>,
}

/// Custom OS command along with a notification filter.
pub struct CustomCommand {
    /// Notification message filter.
    pub filter: Option<NotificationFilter>,
    /// Command template.
    pub command: String,
}

/// The timeout that the sender asked for, in whole seconds.
pub open spec fn expire_secs(n: Notification) -> int {
    match n.expire_timeout {
        Some(ms) => ms as int / 1000,
        None => 0,
    }
}

/// Whether the notification's own timeout ran out before `now`.
pub open spec fn expired(n: Notification, now: u64) -> bool {
    n.timestamp + expire_secs(n) < now
}

/// Whether a command is to run for `n` at `now`: its filter, if any, matches
/// and the notification has not expired.
pub open spec fn command_applies(c: CustomCommand, n: Notification, now: u64) -> bool {
    &&& (c.filter matches Some(f) ==> f.accepts(&n))
    &&& !expired(n, now)
}

/// The templates of the commands of `cs` that are to run, in order.
pub open spec fn due_commands(cs: Seq<CustomCommand>, n: Notification, now: u64) -> Seq<Seq<char>>
    decreases cs.len(),
{
    if cs.len() == 0 {
        Seq::empty()
    } else {
        let rest = due_commands(cs.drop_last(), n, now);
        if command_applies(cs.last(), n, now) {
            rest.push(cs.last().command@)
        } else {
            rest
        }
    }
}

impl UrgencyConfig {
    /// The commands configured for this urgency.
    pub open spec fn commands(&self) -> Seq<CustomCommand> {
        match self.custom_commands {
            Some(cs) => cs@,
            None => Seq::empty(),
        }
    }

    /// The text that stands for `urgency`: the configured one, else the level's name.
    pub fn urgency_text(&self, urgency: Urgency) -> (r: String)
        ensures
            self.text matches Some(t) ==> r@ == t@,
            self.text is None ==> r@ == urgency.name(),
    {
        match &self.text {
            Some(t) => t.clone(),
            None => urgency.as_str().to_string(),
        }
    }

    /// Returns the command templates to run for `notification` at `now`
    /// (seconds since the epoch), in the configured order.
    pub fn commands_to_run(&self, notification: &Notification, now: u64) -> (r: Vec<String>)
        ensures
            r@.map_values(|s: String| s@) == due_commands(self.commands(), *notification, now),
    {
        let mut r: Vec<String> = Vec::new();
        match &self.custom_commands {
            None => {
                assert(r@.map_values(|s: String| s@) =~= Seq::<Seq<char>>::empty());
            },
            Some(commands) => {
                let secs: u64 = match notification.expire_timeout {
                    Some(ms) => ms / 1000,
                    None => 0,
                };
                let is_expired = notification.timestamp <= u64::MAX - secs
                    && notification.timestamp + secs < now;
                let n = commands.len();
                let mut i: usize = 0;
                while i < n
                    invariant
                        n == commands@.len(),
                        0 <= i <= n,
                        self.commands() == commands@,
                        secs == expire_secs(*notification),
                        is_expired == expired(*notification, now),
                        r@.map_values(|s: String| s@) == due_commands(
                            commands@.subrange(0, i as int),
                            *notification,
                            now,
                        ),
                    decreases n - i,
                {
                    let c = &commands[i];
                    let ghost before = r@;
                    assert(commands@.subrange(0, i + 1).drop_last() =~= commands@.subrange(
                        0,
                        i as int,
                    ));
                    let passes = match &c.filter {
                        Some(f) => notification.matches_filter(f),
                        None => true,
                    };
                    if passes && !is_expired {
                        r.push(c.command.clone());
                        assert(r@.map_values(|s: String| s@) =~= before.map_values(
                            |s: String| s@,
                        ).push(c.command@));
                    }
                    i = i + 1;
                }
                assert(commands@.subrange(0, n as int) =~= commands@);
            },
        }
        r
    }
}

} // verus!
