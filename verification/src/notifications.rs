//! UI-independent notification and error-banner state.
//!
//! [`NotificationCenter`] stores recent notifications, removes expired entries,
//! and exposes the currently visible banners without making any assumptions
//! about a particular UI toolkit. Time is supplied by [`Clock`] so callers and
//! tests can use a monotonic, deterministic time source.

use vstd::prelude::*;
use crate::text::{str_eq, string_from_str};
use crate::time::Duration;

verus! {

/// The urgency of a notification.
#[derive(Debug, Clone, Copy, PartialEq, Eq, PartialOrd, Ord, Structural)]
pub enum Severity {
    Info,
    Success,
    Warning,
    Error,
    Critical,
}

/// The position of a severity in increasing urgency.
pub open spec fn severity_rank(s: Severity) -> nat {
    match s {
        Severity::Info => 0,
        Severity::Success => 1,
        Severity::Warning => 2,
        Severity::Error => 3,
        Severity::Critical => 4,
    }
}

impl Severity {
    /// The position of this severity in increasing urgency.
    pub fn rank(self) -> (r: u8)
        ensures
            r == severity_rank(self),
    {
        match self {
            Severity::Info => 0,
            Severity::Success => 1,
            Severity::Warning => 2,
            Severity::Error => 3,
            Severity::Critical => 4,
        }
    }

    /// The lower-case name of this severity.
    pub fn to_string(&self) -> (s: String)
        ensures
            s@ == match self {
                Severity::Info => "info"@,
                Severity::Success => "success"@,
                Severity::Warning => "warning"@,
                Severity::Error => "error"@,
                Severity::Critical => "critical"@,
            },
    {
        match self {
            Severity::Info => string_from_str("info"),
            Severity::Success => string_from_str("success"),
            Severity::Warning => string_from_str("warning"),
            Severity::Error => string_from_str("error"),
            Severity::Critical => string_from_str("critical"),
        }
    }
}

/// A source/category used for the built-in notification helpers.
#[derive(Debug, Clone, Copy, PartialEq, Eq, Hash, Structural)]
pub enum NotificationKind {
    PollingError,
    UnsafeTime,
    Recovery,
}

/// A clock used by [`NotificationCenter`].
///
/// The returned value need only be monotonic relative to other values returned
/// by the same clock. [`SystemClock`] is provided for normal application use.
pub trait Clock {
    fn now(&self) -> Duration;
}

/// A clock reading the operating system's wall clock.
#[derive(Debug, Clone, Copy, Default)]
pub struct SystemClock;

impl Clock for SystemClock {
    /// The span of the wall clock since the Unix epoch; zero while the clock
    /// reads an earlier time.
    fn now(&self) -> Duration {
        match crate::time::wall_clock_offset() {
            Ok(since) => since,
            Err(_) => Duration::zero(),
        }
    }
}

/// One notification retained in the bounded history.
#[derive(Debug, PartialEq, Eq)]
pub struct Notification {
    id: u64,
    key: String,
    kind: NotificationKind,
    severity: Severity,
    message: String,
    created_at: Duration,
    expires_at: Option<Duration>,
    dismissed: bool,
}

/// The abstract value of a [`Notification`].
pub struct NotificationModel {
    pub id: u64,
    pub key: Seq<char>,
    pub kind: NotificationKind,
    pub severity: Severity,
    pub message: Seq<char>,
    pub created_at: nat,
    pub expires_at: Option<nat>,
    pub dismissed: bool,
}

pub open spec fn option_nanos(d: Option<Duration>) -> Option<nat> {
    match d {
        Some(d) => Some(d@),
        None => None,
    }
}

impl View for Notification {
    type V = NotificationModel;

    closed spec fn view(&self) -> NotificationModel {
        NotificationModel {
            id: self.id,
            key: self.key@,
            kind: self.kind,
            severity: self.severity,
            message: self.message@,
            created_at: self.created_at@,
            expires_at: option_nanos(self.expires_at),
            dismissed: self.dismissed,
        }
    }
}

impl Clone for Notification {
    fn clone(&self) -> (c: Self)
        ensures
            c@ == self@,
    {
        Notification {
            id: self.id,
            key: self.key.clone(),
            kind: self.kind,
            severity: self.severity,
            message: self.message.clone(),
            created_at: self.created_at,
            expires_at: self.expires_at,
            dismissed: self.dismissed,
        }
    }
}

/// Whether a notification has expired at time `now`.
pub open spec fn expired_at(n: NotificationModel, now: nat) -> bool {
    n.expires_at matches Some(e) && now >= e
}

/// The entries of `h` that have not expired at `now`, in order.
pub open spec fn unexpired(h: Seq<NotificationModel>, now: nat) -> Seq<NotificationModel>
    decreases h.len(),
{
    if h.len() == 0 {
        h
    } else {
        let rest = unexpired(h.drop_last(), now);
        if expired_at(h.last(), now) {
            rest
        } else {
            rest.push(h.last())
        }
    }
}

/// The entries of `h` that are not dismissed, in order.
pub open spec fn undismissed(h: Seq<NotificationModel>) -> Seq<NotificationModel>
    decreases h.len(),
{
    if h.len() == 0 {
        h
    } else {
        let rest = undismissed(h.drop_last());
        if h.last().dismissed {
            rest
        } else {
            rest.push(h.last())
        }
    }
}

/// The position of the first entry of `h` with the given key.
pub open spec fn index_of_key(h: Seq<NotificationModel>, key: Seq<char>) -> Option<int>
    decreases h.len(),
{
    if h.len() == 0 {
        None
    } else {
        match index_of_key(h.drop_last(), key) {
            Some(i) => Some(i),
            None => if h.last().key == key {
                Some(h.len() - 1)
            } else {
                None
            },
        }
    }
}

/// The position of the first active entry of `h` with the given id.
pub open spec fn index_of_active_id(h: Seq<NotificationModel>, id: u64) -> Option<int>
    decreases h.len(),
{
    if h.len() == 0 {
        None
    } else {
        match index_of_active_id(h.drop_last(), id) {
            Some(i) => Some(i),
            None => if h.last().id == id && !h.last().dismissed {
                Some(h.len() - 1)
            } else {
                None
            },
        }
    }
}

/// Whether `a` outranks `b` for display: higher severity, then newer id.
pub open spec fn outranks(a: NotificationModel, b: NotificationModel) -> bool {
    severity_rank(a.severity) > severity_rank(b.severity) || (severity_rank(a.severity)
        == severity_rank(b.severity) && a.id >= b.id)
}

/// The abstract state of a [`NotificationCenter`].
pub struct CenterModel {
    pub capacity: nat,
    pub next_id: u64,
    pub history: Seq<NotificationModel>,
}

/// The expiry of a notification created at `now` with an optional lifetime.
pub open spec fn expiry(now: nat, lifetime: Option<nat>) -> Option<nat> {
    match lifetime {
        Some(d) => if now + d <= crate::time::max_duration_nanos() {
            Some(now + d)
        } else {
            None
        },
        None => None,
    }
}

/// The last `capacity` entries of `h`.
pub open spec fn newest(h: Seq<NotificationModel>, capacity: nat) -> Seq<NotificationModel> {
    if h.len() > capacity {
        h.skip(h.len() - capacity)
    } else {
        h
    }
}

/// The state and result after publishing a notification at time `now`.
pub open spec fn notify_spec(
    m: CenterModel,
    now: nat,
    key: Seq<char>,
    kind: NotificationKind,
    severity: Severity,
    message: Seq<char>,
    lifetime: Option<nat>,
) -> (CenterModel, Option<u64>) {
    let h = unexpired(m.history, now);
    let expires_at = expiry(now, lifetime);
    match index_of_key(h, key) {
        Some(i) => {
            let updated = NotificationModel {
                id: h[i].id,
                key: h[i].key,
                kind,
                severity,
                message,
                created_at: now,
                expires_at,
                dismissed: false,
            };
            (CenterModel { history: h.update(i, updated), ..m }, Some(h[i].id))
        },
        None => if m.capacity == 0 {
            (CenterModel { history: h, ..m }, None)
        } else {
            let created = NotificationModel {
                id: m.next_id,
                key,
                kind,
                severity,
                message,
                created_at: now,
                expires_at,
                dismissed: false,
            };
            (
                CenterModel {
                    capacity: m.capacity,
                    next_id: if m.next_id == u64::MAX {
                        u64::MAX
                    } else {
                        (m.next_id + 1) as u64
                    },
                    history: newest(h.push(created), m.capacity),
                },
                Some(m.next_id),
            )
        },
    }
}

/// The abstract values of stored notifications, in order.
pub open spec fn models(v: Seq<Notification>) -> Seq<NotificationModel> {
    v.map_values(|n: Notification| n@)
}

/// No two entries of `h` share a key.
pub open spec fn keys_distinct(h: Seq<NotificationModel>) -> bool {
    forall|i: int, j: int| 0 <= i < j < h.len() ==> h[i].key != h[j].key
}

/// Every id of `h` lies below `next_id`, and ids increase along `h`; both
/// only up to the point where ids reach `u64::MAX` and stay there.
pub open spec fn ids_ordered(h: Seq<NotificationModel>, next_id: u64) -> bool {
    &&& forall|i: int| 0 <= i < h.len() ==> (h[i].id < next_id || next_id == u64::MAX)
    &&& forall|i: int, j: int|
        0 <= i < j < h.len() ==> (h[i].id < h[j].id || h[j].id == u64::MAX)
}

/// What every [`NotificationCenter`] keeps: a history within capacity, with
/// distinct keys and increasing ids.
pub open spec fn center_wf(m: CenterModel) -> bool {
    &&& m.history.len() <= m.capacity
    &&& keys_distinct(m.history)
    &&& ids_ordered(m.history, m.next_id)
}

/// A bounded notification and error-banner store.
#[derive(Debug)]
pub struct NotificationCenter<C> {
    clock: C,
    capacity: usize,
    next_id: u64,
    history: Vec<Notification>,
}

impl<C> NotificationCenter<C> {
    #[verifier::type_invariant]
    closed spec fn wf(self) -> bool {
        center_wf(self@)
    }
}

impl<C> View for NotificationCenter<C> {
    type V = CenterModel;

    closed spec fn view(&self) -> CenterModel {
        CenterModel {
            capacity: self.capacity as nat,
            next_id: self.next_id,
            history: models(self.history@),
        }
    }
}

impl Notification {
    pub fn id(&self) -> (r: u64)
        ensures
            r == self@.id,
    {
        self.id
    }

    pub fn key(&self) -> (r: &str)
        ensures
            r@ == self@.key,
    {
        self.key.as_str()
    }

    pub fn kind(&self) -> (r: NotificationKind)
        ensures
            r == self@.kind,
    {
        self.kind
    }

    pub fn severity(&self) -> (r: Severity)
        ensures
            r == self@.severity,
    {
        self.severity
    }

    pub fn message(&self) -> (r: &str)
        ensures
            r@ == self@.message,
    {
        self.message.as_str()
    }

    pub fn created_at(&self) -> (r: Duration)
        ensures
            r@ == self@.created_at,
    {
        self.created_at
    }

    pub fn expires_at(&self) -> (r: Option<Duration>)
        ensures
            option_nanos(r) == self@.expires_at,
    {
        self.expires_at
    }

    pub fn is_dismissed(&self) -> (r: bool)
        ensures
            r == self@.dismissed,
    {
        self.dismissed
    }

    pub fn is_expired_at(&self, now: Duration) -> (r: bool)
        ensures
            r == expired_at(self@, now@),
    {
        match self.expires_at {
            Some(expiry) => !now.lt(&expiry),
            None => false,
        }
    }
}

impl<C: Clock> NotificationCenter<C> {
    /// Creates a store. A capacity of zero retains no history.
    pub fn new(clock: C, capacity: usize) -> (c: Self)
        ensures
            c@.capacity == capacity,
            c@.next_id == 1,
            c@.history == Seq::<NotificationModel>::empty(),
    {
        let c = NotificationCenter { clock, capacity, next_id: 1, history: Vec::new() };
        assert(c@.history =~= Seq::<NotificationModel>::empty());
        c
    }

    /// The clock this store reads.
    pub fn clock(&self) -> &C {
        &self.clock
    }

    pub fn capacity(&self) -> (r: usize)
        ensures
            r == self@.capacity,
    {
        self.capacity
    }

    /// The clock's current reading.
    pub fn now(&self) -> Duration {
        self.clock.now()
    }

    /// The retained entries, oldest first: never more than the capacity, no
    /// two with the same key, and ids increasing.
    pub fn history(&self) -> (h: &[Notification])
        ensures
            h@.map_values(|n: Notification| n@) == self@.history,
            center_wf(self@),
    {
        proof {
            use_type_invariant(self);
        }
        self.history.as_slice()
    }

    /// Removes expired entries and returns all active, non-dismissed banners.
    pub fn active(&mut self) -> (r: Vec<&Notification>)
        ensures
            final(self)@.capacity == old(self)@.capacity,
            final(self)@.next_id == old(self)@.next_id,
            exists|now: nat| final(self)@.history == unexpired(old(self)@.history, now),
            r@.len() == undismissed(final(self)@.history).len(),
            forall|i: int|
                0 <= i < r@.len() ==> (#[trigger] r@[i])@ == undismissed(final(self)@.history)[i],
    {
        self.prune_expired();
        self.active_unpruned()
    }

    /// Removes entries expired at `now` and returns the active, non-dismissed
    /// banners.
    pub fn active_at(&mut self, now: Duration) -> (r: Vec<&Notification>)
        ensures
            final(self)@.capacity == old(self)@.capacity,
            final(self)@.next_id == old(self)@.next_id,
            final(self)@.history == unexpired(old(self)@.history, now@),
            r@.len() == undismissed(final(self)@.history).len(),
            forall|i: int|
                0 <= i < r@.len() ==> (#[trigger] r@[i])@ == undismissed(final(self)@.history)[i],
    {
        self.prune_expired_at(now);
        self.active_unpruned()
    }

    fn active_unpruned(&self) -> (r: Vec<&Notification>)
        ensures
            r@.len() == undismissed(self@.history).len(),
            forall|i: int|
                0 <= i < r@.len() ==> (#[trigger] r@[i])@ == undismissed(self@.history)[i],
    {
        let mut r: Vec<&Notification> = Vec::new();
        let mut i: usize = 0;
        while i < self.history.len()
            invariant
                i <= self.history@.len(),
                r@.len() == undismissed(self@.history.take(i as int)).len(),
                forall|j: int|
                    0 <= j < r@.len() ==> (#[trigger] r@[j])@ == undismissed(
                        self@.history.take(i as int),
                    )[j],
            decreases self.history.len() - i,
        {
            assert(self@.history.take(i + 1).drop_last() =~= self@.history.take(i as int));
            let item = &self.history[i];
            if !item.dismissed {
                r.push(item);
            }
            i = i + 1;
        }
        assert(self@.history.take(i as int) =~= self@.history);
        r
    }

    /// Removes expired entries and returns the highest-severity active banner,
    /// preferring the newest among equally severe ones.
    pub fn top(&mut self) -> (r: Option<&Notification>)
        ensures
            final(self)@.capacity == old(self)@.capacity,
            final(self)@.next_id == old(self)@.next_id,
            exists|now: nat| final(self)@.history == unexpired(old(self)@.history, now),
            top_of(final(self)@.history, r),
    {
        self.prune_expired();
        self.top_unpruned()
    }

    /// Removes entries expired at `now` and returns the highest-severity active
    /// banner.
    pub fn top_at(&mut self, now: Duration) -> (r: Option<&Notification>)
        ensures
            final(self)@.capacity == old(self)@.capacity,
            final(self)@.next_id == old(self)@.next_id,
            final(self)@.history == unexpired(old(self)@.history, now@),
            top_of(final(self)@.history, r),
    {
        self.prune_expired_at(now);
        self.top_unpruned()
    }

    fn top_unpruned(&self) -> (r: Option<&Notification>)
        ensures
            top_of(self@.history, r),
    {
        let mut best: Option<usize> = None;
        let mut i: usize = 0;
        while i < self.history.len()
            invariant
                i <= self.history@.len(),
                best matches Some(b) ==> b < i && !self@.history[b as int].dismissed,
                best is None ==> forall|j: int| 0 <= j < i ==> self@.history[j].dismissed,
                best matches Some(b) ==> forall|j: int|
                    0 <= j < i && !self@.history[j].dismissed ==> outranks(
                        self@.history[b as int],
                        #[trigger] self@.history[j],
                    ),
                best matches Some(b) ==> forall|j: int|
                    b < j < i && !self@.history[j].dismissed ==> !outranks(
                        #[trigger] self@.history[j],
                        self@.history[b as int],
                    ) || (self@.history[j].severity == self@.history[b as int].severity
                        && self@.history[j].id == self@.history[b as int].id),
            decreases self.history.len() - i,
        {
            let item = &self.history[i];
            if !item.dismissed {
                match best {
                    None => {
                        best = Some(i);
                    },
                    Some(b) => {
                        let current = &self.history[b];
                        let rank = item.severity.rank();
                        let best_rank = current.severity.rank();
                        if rank > best_rank || (rank == best_rank && item.id >= current.id) {
                            best = Some(i);
                        }
                    },
                }
            }
            i = i + 1;
        }
        match best {
            Some(b) => Some(&self.history[b]),
            None => None,
        }
    }

    /// Publishes a notification, deduplicating an existing entry by key.
    /// Deduplication updates its text, severity, and expiry rather than adding
    /// another banner, and makes a dismissed entry visible again.
    pub fn notify(
        &mut self,
        key: &str,
        kind: NotificationKind,
        severity: Severity,
        message: &str,
        lifetime: Option<Duration>,
    ) -> (r: Option<u64>)
        ensures
            center_wf(final(self)@),
            exists|now: nat|
                (final(self)@, r) == notify_spec(
                    old(self)@,
                    now,
                    key@,
                    kind,
                    severity,
                    message@,
                    option_nanos(lifetime),
                ),
    {
        let now = self.clock.now();
        self.notify_at(now, key, kind, severity, message, lifetime)
    }

    /// Publishes a notification at time `now`; see [`Self::notify`].
    pub fn notify_at(
        &mut self,
        now: Duration,
        key: &str,
        kind: NotificationKind,
        severity: Severity,
        message: &str,
        lifetime: Option<Duration>,
    ) -> (r: Option<u64>)
        ensures
            center_wf(final(self)@),
            (final(self)@, r) == notify_spec(
                old(self)@,
                now@,
                key@,
                kind,
                severity,
                message@,
                option_nanos(lifetime),
            ),
    {
        proof {
            use_type_invariant(&*self);
        }
        self.prune_expired_at(now);
        let mut hv: Vec<Notification> = Vec::new();
        std::mem::swap(&mut hv, &mut self.history);
        let ghost pruned = models(hv@);
        let ghost target = notify_spec(
            old(self)@,
            now@,
            key@,
            kind,
            severity,
            message@,
            option_nanos(lifetime),
        ).0;
        proof {
            lemma_notify_keeps_wf(old(self)@, now@, key@, kind, severity, message@, option_nanos(lifetime));
        }
        proof {
            lemma_unexpired_len(old(self)@.history, now@);
        }
        assert(pruned.len() <= old(self)@.capacity);
        let expires_at = match lifetime {
            Some(d) => now.checked_add(&d),
            None => None,
        };
        assert(option_nanos(expires_at) == expiry(now@, option_nanos(lifetime)));
        let mut i: usize = 0;
        while i < hv.len()
            invariant
                self.history@.len() == 0,
                center_wf(target),
                target == notify_spec(
                    old(self)@,
                    now@,
                    key@,
                    kind,
                    severity,
                    message@,
                    option_nanos(lifetime),
                ).0,
                models(hv@) == pruned,
                pruned == unexpired(old(self)@.history, now@),
                pruned.len() <= old(self)@.capacity,
                option_nanos(expires_at) == expiry(now@, option_nanos(lifetime)),
                self@.capacity == old(self)@.capacity,
                self@.next_id == old(self)@.next_id,
                i <= hv@.len(),
                index_of_key(pruned.take(i as int), key@) is None,
            decreases hv.len() - i,
        {
            assert(pruned.take(i + 1).drop_last() =~= pruned.take(i as int));
            if str_eq(hv[i].key.as_str(), key) {
                proof {
                    lemma_index_of_key_prefix(pruned, key@, i as int);
                }
                let id = hv[i].id;
                let mut item = hv.remove(i);
                item.kind = kind;
                item.severity = severity;
                item.message = string_from_str(message);
                item.created_at = now;
                item.expires_at = expires_at;
                item.dismissed = false;
                hv.insert(i, item);
                proof {
                    assert(models(hv@) =~= pruned.update(i as int, item@));
                    let upd = NotificationModel {
                        id: pruned[i as int].id,
                        key: pruned[i as int].key,
                        kind,
                        severity,
                        message: message@,
                        created_at: now@,
                        expires_at: expiry(now@, option_nanos(lifetime)),
                        dismissed: false,
                    };
                    assert(item@ == upd);
                }
                assert(models(hv@) == target.history);
                self.history = hv;
                return Some(id);
            }
            i = i + 1;
        }
        assert(pruned.take(i as int) =~= pruned);
        if self.capacity == 0 {
            self.history = hv;
            return None;
        }
        let id = self.next_id;
        self.next_id = self.next_id.saturating_add(1);
        let created = Notification {
            id,
            key: string_from_str(key),
            kind,
            severity,
            message: string_from_str(message),
            created_at: now,
            expires_at,
            dismissed: false,
        };
        hv.push(created);
        let ghost pushed = models(hv@);
        let ghost next = self@.next_id;
        assert(pushed =~= pruned.push(created@));
        let mut removed: usize = 0;
        while hv.len() > self.capacity
            invariant
                self.history@.len() == 0,
                self@.capacity == old(self)@.capacity,
                self@.next_id == next,
                self@.capacity > 0,
                pushed.len() <= self@.capacity + 1,
                removed <= 1,
                removed == 0 || pushed.len() == self@.capacity + 1,
                models(hv@) =~= pushed.skip(removed as int),
                hv.len() + removed == pushed.len(),
            decreases hv.len(),
        {
            let ghost before = models(hv@);
            hv.remove(0);
            assert(models(hv@) =~= before.drop_first());
            assert(pushed.skip(removed + 1) =~= pushed.skip(removed as int).drop_first());
            removed = removed + 1;
        }
        assert(models(hv@) =~= newest(pushed, self@.capacity));
        self.history = hv;
        Some(id)
    }

    /// Records a polling failure as an error banner.
    pub fn polling_error(&mut self, message: &str) -> (r: Option<u64>)
        ensures
            center_wf(final(self)@),
            exists|now: nat|
                (final(self)@, r) == notify_spec(
                    old(self)@,
                    now,
                    "polling-error"@,
                    NotificationKind::PollingError,
                    Severity::Error,
                    message@,
                    None,
                ),
    {
        self.notify("polling-error", NotificationKind::PollingError, Severity::Error, message, None)
    }

    /// Records an unsafe time status as a warning banner.
    pub fn unsafe_time(&mut self, message: &str) -> (r: Option<u64>)
        ensures
            center_wf(final(self)@),
            exists|now: nat|
                (final(self)@, r) == notify_spec(
                    old(self)@,
                    now,
                    "unsafe-time"@,
                    NotificationKind::UnsafeTime,
                    Severity::Warning,
                    message@,
                    None,
                ),
    {
        self.notify("unsafe-time", NotificationKind::UnsafeTime, Severity::Warning, message, None)
    }

    /// Records successful recovery from a prior problem; the banner expires
    /// after five seconds.
    pub fn recovery(&mut self, message: &str) -> (r: Option<u64>)
        ensures
            center_wf(final(self)@),
            exists|now: nat|
                (final(self)@, r) == notify_spec(
                    old(self)@,
                    now,
                    "recovery"@,
                    NotificationKind::Recovery,
                    Severity::Success,
                    message@,
                    Some(5_000_000_000nat),
                ),
    {
        let lifetime = Duration::from_secs(5);
        self.notify("recovery", NotificationKind::Recovery, Severity::Success, message, Some(lifetime))
    }

    /// Dismisses an active banner. Returns whether the id was found and active.
    pub fn dismiss(&mut self, id: u64) -> (found: bool)
        ensures
            final(self)@.capacity == old(self)@.capacity,
            final(self)@.next_id == old(self)@.next_id,
            exists|now: nat| dismiss_spec(unexpired(old(self)@.history, now), id, final(self)@.history, found),
    {
        self.prune_expired();
        self.dismiss_unpruned(id)
    }

    /// Removes entries expired at `now`, then dismisses an active banner.
    pub fn dismiss_at(&mut self, now: Duration, id: u64) -> (found: bool)
        ensures
            final(self)@.capacity == old(self)@.capacity,
            final(self)@.next_id == old(self)@.next_id,
            dismiss_spec(unexpired(old(self)@.history, now@), id, final(self)@.history, found),
    {
        self.prune_expired_at(now);
        self.dismiss_unpruned(id)
    }

    fn dismiss_unpruned(&mut self, id: u64) -> (found: bool)
        ensures
            final(self)@.capacity == old(self)@.capacity,
            final(self)@.next_id == old(self)@.next_id,
            dismiss_spec(old(self)@.history, id, final(self)@.history, found),
    {
        proof {
            use_type_invariant(&*self);
        }
        let mut hv: Vec<Notification> = Vec::new();
        std::mem::swap(&mut hv, &mut self.history);
        let ghost h = models(hv@);
        let mut i: usize = 0;
        while i < hv.len()
            invariant
                self.capacity == old(self).capacity,
                self.next_id == old(self).next_id,
                h == old(self)@.history,
                center_wf(old(self)@),
                h == models(hv@),
                i <= hv@.len(),
                index_of_active_id(h.take(i as int), id) is None,
            decreases hv.len() - i,
        {
            assert(h.take(i + 1).drop_last() =~= h.take(i as int));
            if hv[i].id == id && !hv[i].dismissed {
                proof {
                    lemma_index_of_active_id_prefix(h, id, i as int);
                }
                let mut item = hv.remove(i);
                item.dismissed = true;
                hv.insert(i, item);
                assert(models(hv@) =~= h.update(
                    i as int,
                    NotificationModel { dismissed: true, ..h[i as int] },
                ));
                proof {
                    lemma_dismiss_keeps_wf(old(self)@, id, models(hv@), true);
                }
                self.history = hv;
                return true;
            }
            i = i + 1;
        }
        assert(h.take(i as int) =~= h);
        proof {
            lemma_dismiss_keeps_wf(old(self)@, id, h, false);
        }
        self.history = hv;
        false
    }

    /// Deletes expired entries according to the clock.
    pub fn prune_expired(&mut self)
        ensures
            final(self)@.capacity == old(self)@.capacity,
            final(self)@.next_id == old(self)@.next_id,
            exists|now: nat| final(self)@.history == unexpired(old(self)@.history, now),
    {
        let now = self.clock.now();
        self.prune_expired_at(now);
    }

    /// Deletes the entries that have expired at `now`.
    pub fn prune_expired_at(&mut self, now: Duration)
        ensures
            final(self)@.capacity == old(self)@.capacity,
            final(self)@.next_id == old(self)@.next_id,
            final(self)@.history == unexpired(old(self)@.history, now@),
    {
        proof {
            use_type_invariant(&*self);
        }
        let mut hv: Vec<Notification> = Vec::new();
        std::mem::swap(&mut hv, &mut self.history);
        let ghost h = old(self)@.history;
        assert(h.len() == hv.len());
        let mut i: usize = 0;
        let mut consumed: usize = 0;
        while i < hv.len()
            invariant
                self.capacity == old(self).capacity,
                self.next_id == old(self).next_id,
                i <= consumed <= h.len(),
                h.len() <= usize::MAX,
                hv.len() == i + (h.len() - consumed),
                h == old(self)@.history,
                models(hv@) =~= unexpired(h.take(consumed as int), now@) + h.skip(
                    consumed as int,
                ),
                unexpired(h.take(consumed as int), now@).len() == i,
            decreases hv.len() - i,
        {
            assert(h.take(consumed + 1).drop_last() =~= h.take(consumed as int));
            let ghost before = models(hv@);
            let ghost done = unexpired(h.take(consumed as int), now@);
            assert(h.skip(consumed as int) =~= seq![h[consumed as int]] + h.skip(consumed + 1));
            assert(before[i as int] == h[consumed as int]);
            if hv[i].is_expired_at(now) {
                hv.remove(i);
                assert(models(hv@) =~= before.remove(i as int));
                assert(models(hv@) =~= done + h.skip(consumed + 1));
            } else {
                i = i + 1;
                assert(models(hv@) =~= done.push(h[consumed as int]) + h.skip(consumed + 1));
            }
            consumed = consumed + 1;
        }
        assert(h.take(consumed as int) =~= h);
        proof {
            lemma_unexpired_keeps_order(h, now@, old(self)@.next_id);
        }
        self.history = hv;
    }
}

/// The top banner among the undismissed entries of `h`.
pub open spec fn top_of(h: Seq<NotificationModel>, r: Option<&Notification>) -> bool {
    match r {
        None => forall|j: int| 0 <= j < h.len() ==> h[j].dismissed,
        Some(n) => exists|b: int|
            0 <= b < h.len() && h[b] == n@ && !h[b].dismissed && (forall|j: int|
                0 <= j < h.len() && !h[j].dismissed ==> outranks(h[b], #[trigger] h[j])),
    }
}

/// The history after dismissing the first active entry with `id`.
pub open spec fn dismiss_spec(
    h: Seq<NotificationModel>,
    id: u64,
    after: Seq<NotificationModel>,
    found: bool,
) -> bool {
    match index_of_active_id(h, id) {
        Some(i) => found && after == h.update(i, NotificationModel { dismissed: true, ..h[i] }),
        None => !found && after == h,
    }
}

proof fn lemma_unexpired_len(h: Seq<NotificationModel>, now: nat)
    ensures
        unexpired(h, now).len() <= h.len(),
    decreases h.len(),
{
    if h.len() > 0 {
        lemma_unexpired_len(h.drop_last(), now);
    }
}

proof fn lemma_index_of_key_prefix(h: Seq<NotificationModel>, key: Seq<char>, i: int)
    requires
        0 <= i < h.len(),
        index_of_key(h.take(i), key) is None,
        h[i].key == key,
    ensures
        index_of_key(h, key) == Some(i),
        index_of_key(h.take(i + 1), key) == Some(i),
    decreases h.len(),
{
    assert(h.take(i + 1).drop_last() =~= h.take(i));
    if i + 1 < h.len() {
        assert(h.drop_last().take(i) =~= h.take(i));
        lemma_index_of_key_prefix(h.drop_last(), key, i);
    } else {
        assert(h.take(i + 1) =~= h);
    }
}

proof fn lemma_index_of_active_id_prefix(h: Seq<NotificationModel>, id: u64, i: int)
    requires
        0 <= i < h.len(),
        index_of_active_id(h.take(i), id) is None,
        h[i].id == id,
        !h[i].dismissed,
    ensures
        index_of_active_id(h, id) == Some(i),
    decreases h.len(),
{
    assert(h.take(i + 1).drop_last() =~= h.take(i));
    if i + 1 < h.len() {
        assert(h.drop_last().take(i) =~= h.take(i));
        lemma_index_of_active_id_prefix(h.drop_last(), id, i);
    } else {
        assert(h.take(i + 1) =~= h);
    }
}

/// Publishing keeps the history within its capacity.
pub proof fn lemma_notify_is_bounded(
    m: CenterModel,
    now: nat,
    key: Seq<char>,
    kind: NotificationKind,
    severity: Severity,
    message: Seq<char>,
    lifetime: Option<nat>,
)
    requires
        m.history.len() <= m.capacity,
    ensures
        notify_spec(m, now, key, kind, severity, message, lifetime).0.history.len() <= m.capacity,
{
    lemma_unexpired_len(m.history, now);
    lemma_index_of_key_in_range(unexpired(m.history, now), key);
}

/// Publishing a key that is already present updates that entry in place and
/// returns its id: the entry takes the new kind, severity, message, time and
/// expiry and is shown again, the other entries stay, and the number of
/// entries does not grow.
pub proof fn lemma_notify_deduplicates(
    m: CenterModel,
    now: nat,
    key: Seq<char>,
    kind: NotificationKind,
    severity: Severity,
    message: Seq<char>,
    lifetime: Option<nat>,
)
    requires
        index_of_key(unexpired(m.history, now), key) is Some,
    ensures
        ({
            let (after, r) = notify_spec(m, now, key, kind, severity, message, lifetime);
            let h = unexpired(m.history, now);
            let i = index_of_key(h, key).unwrap();
            &&& after.history.len() == h.len()
            &&& r == Some(h[i].id)
            &&& after.history[i].id == h[i].id
            &&& after.history[i].key == key
            &&& after.history[i].kind == kind
            &&& after.history[i].severity == severity
            &&& after.history[i].message == message
            &&& after.history[i].created_at == now
            &&& after.history[i].expires_at == expiry(now, lifetime)
            &&& !after.history[i].dismissed
            &&& forall|j: int| 0 <= j < h.len() && j != i ==> after.history[j] == h[j]
        }),
{
    lemma_index_of_key_in_range(unexpired(m.history, now), key);
}

/// Publishing a new key with room for history appends an entry with that
/// key, the next id and everything that was published, and returns its id.
pub proof fn lemma_notify_appends(
    m: CenterModel,
    now: nat,
    key: Seq<char>,
    kind: NotificationKind,
    severity: Severity,
    message: Seq<char>,
    lifetime: Option<nat>,
)
    requires
        index_of_key(unexpired(m.history, now), key) is None,
        m.capacity > 0,
    ensures
        ({
            let (after, r) = notify_spec(m, now, key, kind, severity, message, lifetime);
            let n = after.history.len();
            &&& r == Some(m.next_id)
            &&& n > 0
            &&& after.history[n - 1] == (NotificationModel {
                id: m.next_id,
                key,
                kind,
                severity,
                message,
                created_at: now,
                expires_at: expiry(now, lifetime),
                dismissed: false,
            })
        }),
{
    let h = unexpired(m.history, now);
    let created = NotificationModel {
        id: m.next_id,
        key,
        kind,
        severity,
        message,
        created_at: now,
        expires_at: expiry(now, lifetime),
        dismissed: false,
    };
    let p = h.push(created);
    let after = newest(p, m.capacity);
    if p.len() > m.capacity {
        assert(after[after.len() - 1] == p[p.len() - 1]);
    }
}

proof fn lemma_index_of_key_in_range(h: Seq<NotificationModel>, key: Seq<char>)
    ensures
        index_of_key(h, key) matches Some(i) ==> 0 <= i < h.len() && h[i].key == key,
    decreases h.len(),
{
    if h.len() > 0 {
        lemma_index_of_key_in_range(h.drop_last(), key);
    }
}

proof fn lemma_index_of_key_none(h: Seq<NotificationModel>, key: Seq<char>)
    requires
        index_of_key(h, key) is None,
    ensures
        forall|i: int| 0 <= i < h.len() ==> h[i].key != key,
    decreases h.len(),
{
    if h.len() > 0 {
        lemma_index_of_key_none(h.drop_last(), key);
        assert forall|i: int| 0 <= i < h.len() implies h[i].key != key by {
            if i < h.len() - 1 {
                assert(h.drop_last()[i] == h[i]);
            }
        }
    }
}

/// Removing expired entries keeps the order of what is left: each entry left
/// is one of the entries before, and distinct keys and increasing ids stay so.
pub proof fn lemma_unexpired_keeps_order(h: Seq<NotificationModel>, now: nat, next_id: u64)
    requires
        keys_distinct(h),
        ids_ordered(h, next_id),
    ensures
        keys_distinct(unexpired(h, now)),
        ids_ordered(unexpired(h, now), next_id),
        unexpired(h, now).len() <= h.len(),
        forall|k: int|
            0 <= k < unexpired(h, now).len() ==> exists|i: int|
                0 <= i < h.len() && h[i] == #[trigger] unexpired(h, now)[k],
    decreases h.len(),
{
    lemma_unexpired_len(h, now);
    if h.len() > 0 {
        let d = h.drop_last();
        let rest = unexpired(d, now);
        assert(keys_distinct(d));
        assert(ids_ordered(d, next_id));
        lemma_unexpired_keeps_order(d, now, next_id);
        assert forall|k: int| 0 <= k < rest.len() implies exists|i: int|
            0 <= i < h.len() - 1 && h[i] == #[trigger] rest[k] by {
            let i = choose|i: int| 0 <= i < d.len() && d[i] == #[trigger] rest[k];
            assert(h[i] == d[i]);
        }
        let u = unexpired(h, now);
        if !expired_at(h.last(), now) {
            assert(u == rest.push(h.last()));
            assert forall|a: int, b: int| 0 <= a < b < u.len() implies u[a].key != u[b].key && (
            u[a].id < u[b].id || u[b].id == u64::MAX) by {
                if b == u.len() - 1 {
                    let i = choose|i: int| 0 <= i < h.len() - 1 && h[i] == #[trigger] rest[a];
                    assert(u[a] == h[i]);
                    assert(u[b] == h[h.len() - 1]);
                } else {
                    assert(u[a] == rest[a] && u[b] == rest[b]);
                }
            }
            assert forall|k: int| 0 <= k < u.len() implies exists|i: int|
                0 <= i < h.len() && h[i] == #[trigger] u[k] by {
                if k == u.len() - 1 {
                    assert(h[h.len() - 1] == u[k]);
                } else {
                    let i = choose|i: int| 0 <= i < h.len() - 1 && h[i] == #[trigger] rest[k];
                    assert(h[i] == u[k]);
                }
            }
            assert forall|k: int| 0 <= k < u.len() implies (u[k].id < next_id || next_id
                == u64::MAX) by {
                let i = choose|i: int| 0 <= i < h.len() && h[i] == #[trigger] u[k];
            }
        } else {
            assert(u == rest);
        }
    }
}

/// Dismissing an entry keeps what every store keeps.
pub proof fn lemma_dismiss_keeps_wf(
    m: CenterModel,
    id: u64,
    after: Seq<NotificationModel>,
    found: bool,
)
    requires
        center_wf(m),
        dismiss_spec(m.history, id, after, found),
    ensures
        center_wf(CenterModel { history: after, ..m }),
{
    match index_of_active_id(m.history, id) {
        Some(i) => {
            lemma_index_of_active_id_in_range(m.history, id);
            let h = m.history;
            assert forall|a: int, b: int| 0 <= a < b < after.len() implies after[a].key
                != after[b].key && (after[a].id < after[b].id || after[b].id == u64::MAX) by {
                assert(after[a].key == h[a].key && after[a].id == h[a].id);
                assert(after[b].key == h[b].key && after[b].id == h[b].id);
            }
            assert forall|k: int| 0 <= k < after.len() implies (after[k].id < m.next_id
                || m.next_id == u64::MAX) by {
                assert(after[k].id == h[k].id);
            }
        },
        None => {},
    }
}

proof fn lemma_index_of_active_id_in_range(h: Seq<NotificationModel>, id: u64)
    ensures
        index_of_active_id(h, id) matches Some(i) ==> 0 <= i < h.len(),
    decreases h.len(),
{
    if h.len() > 0 {
        lemma_index_of_active_id_in_range(h.drop_last(), id);
    }
}

/// Publishing keeps what every store keeps: the history stays within
/// capacity, keys stay distinct and ids keep increasing.
pub proof fn lemma_notify_keeps_wf(
    m: CenterModel,
    now: nat,
    key: Seq<char>,
    kind: NotificationKind,
    severity: Severity,
    message: Seq<char>,
    lifetime: Option<nat>,
)
    requires
        center_wf(m),
    ensures
        center_wf(notify_spec(m, now, key, kind, severity, message, lifetime).0),
{
    let h = unexpired(m.history, now);
    lemma_unexpired_keeps_order(m.history, now, m.next_id);
    lemma_notify_is_bounded(m, now, key, kind, severity, message, lifetime);
    let after = notify_spec(m, now, key, kind, severity, message, lifetime).0;
    match index_of_key(h, key) {
        Some(i) => {
            lemma_index_of_key_in_range(h, key);
            assert forall|a: int, b: int| 0 <= a < b < after.history.len() implies after.history[a].key
                != after.history[b].key && (after.history[a].id < after.history[b].id
                || after.history[b].id == u64::MAX) by {
                assert(after.history[a].key == h[a].key && after.history[a].id == h[a].id);
                assert(after.history[b].key == h[b].key && after.history[b].id == h[b].id);
            }
            assert forall|k: int| 0 <= k < after.history.len() implies (after.history[k].id
                < after.next_id || after.next_id == u64::MAX) by {
                assert(after.history[k].id == h[k].id);
            }
        },
        None => {
            if m.capacity > 0 {
                lemma_index_of_key_none(h, key);
                let created = NotificationModel {
                    id: m.next_id,
                    key,
                    kind,
                    severity,
                    message,
                    created_at: now,
                    expires_at: expiry(now, lifetime),
                    dismissed: false,
                };
                let p = h.push(created);
                assert(keys_distinct(p)) by {
                    assert forall|a: int, b: int| 0 <= a < b < p.len() implies p[a].key
                        != p[b].key by {
                        if b == p.len() - 1 {
                            assert(p[a] == h[a]);
                        } else {
                            assert(p[a] == h[a] && p[b] == h[b]);
                        }
                    }
                }
                assert(ids_ordered(p, after.next_id)) by {
                    assert forall|a: int, b: int| 0 <= a < b < p.len() implies (p[a].id
                        < p[b].id || p[b].id == u64::MAX) by {
                        if b == p.len() - 1 {
                            assert(p[a] == h[a]);
                        } else {
                            assert(p[a] == h[a] && p[b] == h[b]);
                        }
                    }
                    assert forall|k: int| 0 <= k < p.len() implies (p[k].id < after.next_id
                        || after.next_id == u64::MAX) by {
                        if k < p.len() - 1 {
                            assert(p[k] == h[k]);
                        }
                    }
                }
                let n = newest(p, m.capacity);
                assert(after.history == n);
                if p.len() > m.capacity {
                    let s = p.len() - m.capacity;
                    assert forall|a: int, b: int| 0 <= a < b < n.len() implies n[a].key
                        != n[b].key && (n[a].id < n[b].id || n[b].id == u64::MAX) by {
                        assert(n[a] == p[a + s] && n[b] == p[b + s]);
                    }
                    assert forall|k: int| 0 <= k < n.len() implies (n[k].id < after.next_id
                        || after.next_id == u64::MAX) by {
                        assert(n[k] == p[k + s]);
                    }
                }
            }
        },
    }
}

/// While ids have not reached `u64::MAX`, they strictly increase along the
/// history of every store.
pub proof fn lemma_ids_strictly_increase(m: CenterModel)
    requires
        center_wf(m),
        m.next_id < u64::MAX,
    ensures
        forall|i: int, j: int|
            0 <= i < j < m.history.len() ==> m.history[i].id < m.history[j].id,
{
    assert forall|i: int, j: int| 0 <= i < j < m.history.len() implies m.history[i].id
        < m.history[j].id by {
        assert(m.history[j].id < m.next_id);
    }
}

impl Default for NotificationCenter<SystemClock> {
    fn default() -> (c: Self)
        ensures
            c@.capacity == 32,
            c@.next_id == 1,
            c@.history == Seq::<NotificationModel>::empty(),
    {
        Self::new(SystemClock, 32)
    }
}

} // verus!
