use vstd::prelude::*;

verus! {

// ---------------------------------------------------------------------------
// Flash memory
//
// The receiver remembers when it last saw each flash text, so that a window
// that keeps flashing does not flood the desktop with notifications.
// ---------------------------------------------------------------------------

/// A flash that repeats within this many nanoseconds of the last one with the
/// same text is not shown again (30 s).
pub const FLASH_CUTOFF_INTERVAL: u64 = 30_000_000_000;

/// A remembered flash older than this many nanoseconds is forgotten when the
/// next flash is shown (600 s).
pub const FLASH_EXPIRATION_INTERVAL: u64 = 600_000_000_000;

/// When a flash text was last seen, on the receiver's monotonic clock in
/// nanoseconds.
#[derive(Debug)]
pub struct FlashRecord {
    pub msg: String,
    pub at: u64,
}

pub open spec fn record_view(r: FlashRecord) -> (Seq<char>, u64) {
    (r.msg@, r.at)
}

/// The text and time of each record.
pub open spec fn views(v: Seq<FlashRecord>) -> Seq<(Seq<char>, u64)> {
    v.map_values(|r: FlashRecord| record_view(r))
}

/// No text is remembered twice.
pub open spec fn keys_distinct(s: Seq<(Seq<char>, u64)>) -> bool {
    forall|i: int, j: int|
        0 <= i < s.len() && 0 <= j < s.len() && i != j ==> #[trigger] s[i].0 != #[trigger] s[j].0
}

/// Whether the text `k` is remembered.
pub open spec fn has_key(s: Seq<(Seq<char>, u64)>, k: Seq<char>) -> bool {
    exists|i: int| 0 <= i < s.len() && #[trigger] s[i].0 == k
}

/// When the text `k` was last seen.
pub open spec fn time_of(s: Seq<(Seq<char>, u64)>, k: Seq<char>) -> u64 {
    s[choose|i: int| 0 <= i < s.len() && #[trigger] s[i].0 == k].1
}

/// The remembered texts with the time each was last seen.
pub open spec fn as_map(s: Seq<(Seq<char>, u64)>) -> Map<Seq<char>, u64> {
    Map::new(|k: Seq<char>| has_key(s, k), |k: Seq<char>| time_of(s, k))
}

/// The time from `then` to `now`; none when `then` is not before `now`.
pub open spec fn elapsed(now: u64, then: u64) -> nat {
    if now >= then {
        (now - then) as nat
    } else {
        0
    }
}

/// Whether a flash with text `msg` at `now` is shown: unless the same text was
/// seen at most `FLASH_CUTOFF_INTERVAL` ago.
pub open spec fn spec_shows(times: Map<Seq<char>, u64>, msg: Seq<char>, now: u64) -> bool {
    !(times.contains_key(msg) && elapsed(now, times[msg]) <= FLASH_CUTOFF_INTERVAL)
}

/// The remembered flashes that are at most `FLASH_EXPIRATION_INTERVAL` old.
pub open spec fn spec_expire(times: Map<Seq<char>, u64>, now: u64) -> Map<Seq<char>, u64> {
    Map::new(
        |k: Seq<char>| times.contains_key(k) && elapsed(now, times[k]) <= FLASH_EXPIRATION_INTERVAL,
        |k: Seq<char>| times[k],
    )
}

/// The remembered flashes after a flash with text `msg` at `now`: its time is
/// `now`, and, if it is shown, the expired ones are forgotten.
pub open spec fn spec_after_flash(times: Map<Seq<char>, u64>, msg: Seq<char>, now: u64) -> Map<
    Seq<char>,
    u64,
> {
    if spec_shows(times, msg, now) {
        spec_expire(times.insert(msg, now), now)
    } else {
        times.insert(msg, now)
    }
}

proof fn lemma_lookup(s: Seq<(Seq<char>, u64)>, i: int)
    requires
        keys_distinct(s),
        0 <= i < s.len(),
    ensures
        has_key(s, s[i].0),
        time_of(s, s[i].0) == s[i].1,
        as_map(s).contains_key(s[i].0),
        as_map(s)[s[i].0] == s[i].1,
{
    let k = s[i].0;
    assert(has_key(s, k));
    let j = choose|j: int| 0 <= j < s.len() && #[trigger] s[j].0 == k;
    assert(j == i);
}

proof fn lemma_update(s: Seq<(Seq<char>, u64)>, i: int, now: u64)
    requires
        keys_distinct(s),
        0 <= i < s.len(),
    ensures
        keys_distinct(s.update(i, (s[i].0, now))),
        as_map(s.update(i, (s[i].0, now))) =~= as_map(s).insert(s[i].0, now),
{
    let k = s[i].0;
    let s2 = s.update(i, (k, now));
    assert(keys_distinct(s2)) by {
        assert forall|a: int, b: int|
            0 <= a < s2.len() && 0 <= b < s2.len() && a != b implies #[trigger] s2[a].0
            != #[trigger] s2[b].0 by {
            assert(s2[a].0 == s[a].0);
            assert(s2[b].0 == s[b].0);
        }
    }
    assert forall|key: Seq<char>| #[trigger] as_map(s2).contains_key(key) == as_map(s).insert(
        k,
        now,
    ).contains_key(key) by {
        if has_key(s, key) {
            let j = choose|j: int| 0 <= j < s.len() && #[trigger] s[j].0 == key;
            assert(s2[j].0 == key);
        }
        if has_key(s2, key) {
            let j = choose|j: int| 0 <= j < s2.len() && #[trigger] s2[j].0 == key;
            assert(s[j].0 == key);
        }
    }
    assert forall|key: Seq<char>| #[trigger]
        as_map(s2).contains_key(key) implies as_map(s2)[key] == as_map(s).insert(k, now)[key] by {
        let j = choose|j: int| 0 <= j < s2.len() && #[trigger] s2[j].0 == key;
        lemma_lookup(s2, j);
        if j != i {
            assert(s[j] == s2[j]);
            lemma_lookup(s, j);
        }
    }
}

proof fn lemma_push(s: Seq<(Seq<char>, u64)>, k: Seq<char>, now: u64)
    requires
        keys_distinct(s),
        !has_key(s, k),
    ensures
        keys_distinct(s.push((k, now))),
        as_map(s.push((k, now))) =~= as_map(s).insert(k, now),
{
    let s2 = s.push((k, now));
    assert(keys_distinct(s2)) by {
        assert forall|a: int, b: int|
            0 <= a < s2.len() && 0 <= b < s2.len() && a != b implies #[trigger] s2[a].0
            != #[trigger] s2[b].0 by {
            if a < s.len() {
                assert(s2[a] == s[a]);
            }
            if b < s.len() {
                assert(s2[b] == s[b]);
            }
        }
    }
    assert forall|key: Seq<char>| #[trigger] as_map(s2).contains_key(key) == as_map(s).insert(
        k,
        now,
    ).contains_key(key) by {
        if has_key(s, key) {
            let j = choose|j: int| 0 <= j < s.len() && #[trigger] s[j].0 == key;
            assert(s2[j].0 == key);
        }
        assert(s2[s.len() as int].0 == k);
        if has_key(s2, key) {
            let j = choose|j: int| 0 <= j < s2.len() && #[trigger] s2[j].0 == key;
            if j < s.len() {
                assert(s[j].0 == key);
            }
        }
    }
    assert forall|key: Seq<char>| #[trigger]
        as_map(s2).contains_key(key) implies as_map(s2)[key] == as_map(s).insert(k, now)[key] by {
        let j = choose|j: int| 0 <= j < s2.len() && #[trigger] s2[j].0 == key;
        lemma_lookup(s2, j);
        if j < s.len() {
            assert(s[j] == s2[j]);
            lemma_lookup(s, j);
        }
    }
}

/// The status notifier item of the receiver: the number of flashes the user
/// has not looked at, and when each flash text was last seen.
#[derive(Debug)]
pub struct StatusItem {
    unread: u16,
    flashes: Vec<FlashRecord>,
}

/// A property of the status notifier item that the desktop reads.
#[derive(Debug, Clone, Copy, PartialEq, Eq, Structural)]
pub enum Property {
    Category,
    AttentionIconName,
    IconName,
    OverlayIconName,
    Id,
    Title,
    Status,
    WindowId,
    ItemIsMenu,
    Menu,
}

/// The value of a property.
#[derive(Debug, Clone, Copy, PartialEq, Eq)]
pub enum PropertyValue {
    Str(&'static str),
    U32(u32),
    Bool(bool),
}

impl StatusItem {
    /// The remembered flashes, in the order they were first seen.
    pub closed spec fn records(&self) -> Seq<(Seq<char>, u64)> {
        views(self.flashes@)
    }

    /// No flash text is remembered twice.
    pub closed spec fn wf(&self) -> bool {
        keys_distinct(self.records())
    }

    /// When each remembered flash text was last seen.
    pub closed spec fn spec_times(&self) -> Map<Seq<char>, u64> {
        as_map(self.records())
    }

    /// The number of unread flashes.
    pub closed spec fn spec_unread(&self) -> u16 {
        self.unread
    }

    /// The icon the item shows: an error sign while flashes are unread.
    pub open spec fn spec_icon_name(&self) -> Seq<char> {
        if self.spec_unread() > 0 {
            "dialog-error"@
        } else {
            "dialog-information"@
        }
    }

    /// The item's status: it needs attention while flashes are unread.
    pub open spec fn spec_status(&self) -> Seq<char> {
        if self.spec_unread() > 0 {
            "NeedsAttention"@
        } else {
            "Active"@
        }
    }

    /// An item with nothing unread and no flash seen.
    pub fn new() -> (s: Self)
        ensures
            s.wf(),
            s.spec_unread() == 0,
            s.spec_times() == Map::<Seq<char>, u64>::empty(),
    {
        let s = StatusItem { unread: 0, flashes: Vec::new() };
        assert(s.records() =~= Seq::<(Seq<char>, u64)>::empty());
        assert(s.spec_times() =~= Map::<Seq<char>, u64>::empty());
        s
    }

    /// The number of unread flashes.
    pub fn unread(&self) -> (n: u16)
        ensures
            n == self.spec_unread(),
    {
        self.unread
    }

    /// The name of the icon to show.
    pub fn icon_name(&self) -> (s: &'static str)
        ensures
            s@ == self.spec_icon_name(),
    {
        if self.unread > 0 {
            "dialog-error"
        } else {
            "dialog-information"
        }
    }

    /// The item's status.
    pub fn status(&self) -> (s: &'static str)
        ensures
            s@ == self.spec_status(),
    {
        if self.unread > 0 {
            "NeedsAttention"
        } else {
            "Active"
        }
    }

    /// The value of a property as the desktop reads it.
    pub fn property(&self, p: Property) -> (v: PropertyValue)
        ensures
            match p {
                Property::Category => v matches PropertyValue::Str(s) && s@ == "Communications"@,
                Property::AttentionIconName => v matches PropertyValue::Str(s) && s@
                    == "dialog-error"@,
                Property::IconName => v matches PropertyValue::Str(s) && s@
                    == self.spec_icon_name(),
                Property::OverlayIconName => v matches PropertyValue::Str(s) && s@
                    == "dialog-error"@,
                Property::Id => v matches PropertyValue::Str(s) && s@ == "katoptron"@,
                Property::Title => v matches PropertyValue::Str(s) && s@ == "VM Notifications"@,
                Property::Status => v matches PropertyValue::Str(s) && s@ == self.spec_status(),
                Property::WindowId => v == PropertyValue::U32(0),
                Property::ItemIsMenu => v == PropertyValue::Bool(false),
                Property::Menu => v matches PropertyValue::Str(s) && s@ == ""@,
            },
    {
        match p {
            Property::Category => PropertyValue::Str("Communications"),
            Property::AttentionIconName => PropertyValue::Str("dialog-error"),
            Property::IconName => PropertyValue::Str(self.icon_name()),
            Property::OverlayIconName => PropertyValue::Str("dialog-error"),
            Property::Id => PropertyValue::Str("katoptron"),
            Property::Title => PropertyValue::Str("VM Notifications"),
            Property::Status => PropertyValue::Str(self.status()),
            Property::WindowId => PropertyValue::U32(0),
            Property::ItemIsMenu => PropertyValue::Bool(false),
            Property::Menu => PropertyValue::Str(""),
        }
    }

    /// The user clicked the item: everything counts as read. Gives the new
    /// status to announce.
    pub fn activate(&mut self) -> (status: &'static str)
        ensures
            final(self).spec_unread() == 0,
            final(self).spec_times() == old(self).spec_times(),
            final(self).wf() == old(self).wf(),
            status@ == final(self).spec_status(),
            status@ == "Active"@,
    {
        self.unread = 0;
        self.status()
    }

    /// The user opened the item's context menu: one flash counts as unread.
    /// Gives the new status to announce.
    pub fn context_menu(&mut self) -> (status: &'static str)
        ensures
            final(self).spec_unread() == 1,
            final(self).spec_times() == old(self).spec_times(),
            final(self).wf() == old(self).wf(),
            status@ == final(self).spec_status(),
            status@ == "NeedsAttention"@,
    {
        self.unread = 1;
        self.status()
    }

    /// Where the text `msg` is remembered.
    fn find(&self, msg: &String) -> (r: Option<usize>)
        requires
            self.wf(),
        ensures
            match r {
                Some(i) => i < self.records().len() && self.records()[i as int].0 == msg@,
                None => !has_key(self.records(), msg@),
            },
    {
        let mut i: usize = 0;
        while i < self.flashes.len()
            invariant
                i <= self.flashes@.len(),
                self.records().len() == self.flashes@.len(),
                forall|k: int| 0 <= k < i ==> self.records()[k].0 != msg@,
            decreases self.flashes.len() - i,
        {
            if self.flashes[i].msg == *msg {
                return Some(i);
            }
            i = i + 1;
        }
        proof {
            if has_key(self.records(), msg@) {
                let j = choose|j: int|
                    0 <= j < self.records().len() && #[trigger] self.records()[j].0 == msg@;
                assert(self.records()[j].0 != msg@);
            }
        }
        None
    }

    /// Whether a flash with text `msg` at `now` would be shown.
    pub fn would_show(&self, msg: &String, now: u64) -> (b: bool)
        requires
            self.wf(),
        ensures
            b == spec_shows(self.spec_times(), msg@, now),
    {
        match self.find(msg) {
            Some(i) => {
                proof {
                    lemma_lookup(self.records(), i as int);
                }
                let then = self.flashes[i].at;
                let since = if now >= then {
                    now - then
                } else {
                    0
                };
                since > FLASH_CUTOFF_INTERVAL
            },
            None => true,
        }
    }

    /// A flash with text `msg` arrived at `now`. It is shown unless the same
    /// text was seen at most `FLASH_CUTOFF_INTERVAL` before; either way its
    /// time becomes `now`. When it is shown, it counts as unread, and the
    /// flashes seen more than `FLASH_EXPIRATION_INTERVAL` before are
    /// forgotten. Gives whether to show it.
    pub fn on_flash(&mut self, msg: String, now: u64) -> (shown: bool)
        requires
            old(self).wf(),
            spec_shows(old(self).spec_times(), msg@, now) ==> old(self).spec_unread() < u16::MAX,
        ensures
            final(self).wf(),
            shown == spec_shows(old(self).spec_times(), msg@, now),
            final(self).spec_times() == spec_after_flash(old(self).spec_times(), msg@, now),
            final(self).spec_unread() == if shown {
                (old(self).spec_unread() + 1) as u16
            } else {
                old(self).spec_unread()
            },
    {
        let shown = self.would_show(&msg, now);
        let ghost old_times = self.spec_times();
        let ghost key = msg@;
        match self.find(&msg) {
            Some(i) => {
                proof {
                    lemma_update(self.records(), i as int, now);
                }
                let ghost before = self.records();
                self.flashes.set(i, FlashRecord { msg, at: now });
                assert(self.records() =~= before.update(i as int, (before[i as int].0, now)));
            },
            None => {
                proof {
                    lemma_push(self.records(), key, now);
                }
                let ghost before = self.records();
                self.flashes.push(FlashRecord { msg, at: now });
                assert(self.records() =~= before.push((key, now)));
            },
        }
        assert(self.spec_times() == old_times.insert(key, now));
        if shown {
            self.retain_recent(now);
            self.unread = self.unread + 1;
        }
        shown
    }

    /// Forgets the flashes seen more than `FLASH_EXPIRATION_INTERVAL` before
    /// `now`.
    fn retain_recent(&mut self, now: u64)
        requires
            old(self).wf(),
        ensures
            final(self).wf(),
            final(self).unread == old(self).unread,
            final(self).spec_times() == spec_expire(old(self).spec_times(), now),
    {
        let ghost s = self.records();
        let mut kept: Vec<FlashRecord> = Vec::new();
        let mut old_flashes: Vec<FlashRecord> = Vec::new();
        std::mem::swap(&mut old_flashes, &mut self.flashes);
        let mut i: usize = 0;
        let n = old_flashes.len();
        assert(s.subrange(0, 0) =~= Seq::<(Seq<char>, u64)>::empty());
        assert(views(kept@) =~= Seq::<(Seq<char>, u64)>::empty());
        while i < n
            invariant
                n == old_flashes@.len(),
                s == views(old_flashes@),
                i <= n,
                views(kept@) == keep_recent(s.subrange(0, i as int), now),
            decreases n - i,
        {
            let at = old_flashes[i].at;
            let since = if now >= at {
                now - at
            } else {
                0
            };
            let ghost before = views(kept@);
            assert(s.subrange(0, i + 1).drop_last() =~= s.subrange(0, i as int));
            assert(s.subrange(0, i + 1).last() == s[i as int]);
            if since <= FLASH_EXPIRATION_INTERVAL {
                let r = FlashRecord { msg: old_flashes[i].msg.clone(), at };
                kept.push(r);
                assert(views(kept@) =~= before.push(s[i as int]));
            }
            i = i + 1;
        }
        self.flashes = kept;
        proof {
            assert(s.subrange(0, n as int) =~= s);
            lemma_keep_recent(s, now);
        }
    }
}

/// The records seen at most `FLASH_EXPIRATION_INTERVAL` before `now`, in order.
pub open spec fn keep_recent(s: Seq<(Seq<char>, u64)>, now: u64) -> Seq<(Seq<char>, u64)>
    decreases s.len(),
{
    if s.len() == 0 {
        Seq::empty()
    } else {
        let rest = keep_recent(s.drop_last(), now);
        if elapsed(now, s.last().1) <= FLASH_EXPIRATION_INTERVAL {
            rest.push(s.last())
        } else {
            rest
        }
    }
}

proof fn lemma_keep_recent_contains(s: Seq<(Seq<char>, u64)>, now: u64)
    ensures
        forall|x: (Seq<char>, u64)| #[trigger]
            keep_recent(s, now).contains(x) <==> (s.contains(x) && elapsed(now, x.1)
                <= FLASH_EXPIRATION_INTERVAL),
    decreases s.len(),
{
    if s.len() > 0 {
        let d = s.drop_last();
        lemma_keep_recent_contains(d, now);
        assert forall|x: (Seq<char>, u64)| #[trigger]
            keep_recent(s, now).contains(x) <==> (s.contains(x) && elapsed(now, x.1)
                <= FLASH_EXPIRATION_INTERVAL) by {
            assert(s =~= d.push(s.last()));
            if s.contains(x) {
                let j = choose|j: int| 0 <= j < s.len() && s[j] == x;
                if j < d.len() {
                    assert(d[j] == x);
                }
            }
            if d.contains(x) {
                let j = choose|j: int| 0 <= j < d.len() && d[j] == x;
                assert(s[j] == x);
            }
            let rest = keep_recent(d, now);
            if elapsed(now, s.last().1) <= FLASH_EXPIRATION_INTERVAL {
                let r2 = rest.push(s.last());
                if r2.contains(x) {
                    let j = choose|j: int| 0 <= j < r2.len() && r2[j] == x;
                    if j < rest.len() {
                        assert(rest[j] == x);
                    }
                }
                if rest.contains(x) {
                    let j = choose|j: int| 0 <= j < rest.len() && rest[j] == x;
                    assert(r2[j] == x);
                }
                assert(r2[rest.len() as int] == s.last());
            }
        }
    }
}

proof fn lemma_keep_recent_distinct(s: Seq<(Seq<char>, u64)>, now: u64)
    requires
        keys_distinct(s),
    ensures
        keys_distinct(keep_recent(s, now)),
    decreases s.len(),
{
    if s.len() > 0 {
        let d = s.drop_last();
        assert(keys_distinct(d)) by {
            assert forall|a: int, b: int|
                0 <= a < d.len() && 0 <= b < d.len() && a != b implies #[trigger] d[a].0
                != #[trigger] d[b].0 by {
                assert(d[a] == s[a]);
                assert(d[b] == s[b]);
            }
        }
        lemma_keep_recent_distinct(d, now);
        lemma_keep_recent_contains(d, now);
        let rest = keep_recent(d, now);
        if elapsed(now, s.last().1) <= FLASH_EXPIRATION_INTERVAL {
            let r2 = rest.push(s.last());
            assert forall|a: int, b: int|
                0 <= a < r2.len() && 0 <= b < r2.len() && a != b implies #[trigger] r2[a].0
                != #[trigger] r2[b].0 by {
                if a < rest.len() && b < rest.len() {
                    assert(r2[a] == rest[a]);
                    assert(r2[b] == rest[b]);
                } else if a < rest.len() {
                    assert(r2[a] == rest[a]);
                    assert(rest.contains(rest[a]));
                    assert(d.contains(rest[a]));
                    let j = choose|j: int| 0 <= j < d.len() && d[j] == rest[a];
                    assert(s[j] == d[j]);
                    assert(s[s.len() - 1] == s.last());
                } else if b < rest.len() {
                    assert(r2[b] == rest[b]);
                    assert(rest.contains(rest[b]));
                    assert(d.contains(rest[b]));
                    let j = choose|j: int| 0 <= j < d.len() && d[j] == rest[b];
                    assert(s[j] == d[j]);
                    assert(s[s.len() - 1] == s.last());
                }
            }
        }
    }
}

proof fn lemma_keep_recent(s: Seq<(Seq<char>, u64)>, now: u64)
    requires
        keys_distinct(s),
    ensures
        keys_distinct(keep_recent(s, now)),
        as_map(keep_recent(s, now)) =~= spec_expire(as_map(s), now),
{
    let t = keep_recent(s, now);
    lemma_keep_recent_distinct(s, now);
    lemma_keep_recent_contains(s, now);
    assert forall|key: Seq<char>| #[trigger] as_map(t).contains_key(key) == spec_expire(
        as_map(s),
        now,
    ).contains_key(key) by {
        if has_key(t, key) {
            let k = choose|k: int| 0 <= k < t.len() && #[trigger] t[k].0 == key;
            assert(t.contains(t[k]));
            let j = choose|j: int| 0 <= j < s.len() && s[j] == t[k];
            lemma_lookup(s, j);
        }
        if spec_expire(as_map(s), now).contains_key(key) {
            let j = choose|j: int| 0 <= j < s.len() && #[trigger] s[j].0 == key;
            lemma_lookup(s, j);
            assert(s.contains(s[j]));
            assert(t.contains(s[j]));
            let k = choose|k: int| 0 <= k < t.len() && t[k] == s[j];
            assert(t[k].0 == key);
        }
    }
    assert forall|key: Seq<char>| #[trigger]
        as_map(t).contains_key(key) implies as_map(t)[key] == spec_expire(as_map(s), now)[key] by {
        let k = choose|k: int| 0 <= k < t.len() && #[trigger] t[k].0 == key;
        lemma_lookup(t, k);
        assert(t.contains(t[k]));
        let j = choose|j: int| 0 <= j < s.len() && s[j] == t[k];
        lemma_lookup(s, j);
    }
}

// ---------------------------------------------------------------------------
// Laws
// ---------------------------------------------------------------------------

/// A flash with a text never seen before is shown.
pub proof fn lemma_new_flash_shown(times: Map<Seq<char>, u64>, msg: Seq<char>, now: u64)
    requires
        !times.contains_key(msg),
    ensures
        spec_shows(times, msg, now),
{
}

/// A flash that repeats the text of the previous one at most
/// `FLASH_CUTOFF_INTERVAL` later is not shown, whether or not the previous one
/// was.
pub proof fn lemma_repeat_suppressed(
    times: Map<Seq<char>, u64>,
    msg: Seq<char>,
    first: u64,
    second: u64,
)
    requires
        first <= second,
        second - first <= FLASH_CUTOFF_INTERVAL,
    ensures
        !spec_shows(spec_after_flash(times, msg, first), msg, second),
{
    let after = spec_after_flash(times, msg, first);
    assert(after.contains_key(msg));
    assert(after[msg] == first);
}

/// A flash that repeats a text last seen more than `FLASH_CUTOFF_INTERVAL`
/// before is shown again.
pub proof fn lemma_repeat_after_cutoff_shown(
    times: Map<Seq<char>, u64>,
    msg: Seq<char>,
    first: u64,
    second: u64,
)
    requires
        first <= second,
        second - first > FLASH_CUTOFF_INTERVAL,
    ensures
        spec_shows(spec_after_flash(times, msg, first), msg, second),
{
    let after = spec_after_flash(times, msg, first);
    if after.contains_key(msg) {
        assert(after[msg] == first);
    }
}

/// After a flash is shown, every remembered flash was seen at most
/// `FLASH_EXPIRATION_INTERVAL` before it, and the shown one is remembered at
/// its own time.
pub proof fn lemma_shown_flash_expires_old(times: Map<Seq<char>, u64>, msg: Seq<char>, now: u64)
    requires
        spec_shows(times, msg, now),
    ensures
        forall|k: Seq<char>| #[trigger]
            spec_after_flash(times, msg, now).contains_key(k) ==> elapsed(
                now,
                spec_after_flash(times, msg, now)[k],
            ) <= FLASH_EXPIRATION_INTERVAL,
        spec_after_flash(times, msg, now).contains_key(msg),
        spec_after_flash(times, msg, now)[msg] == now,
{
}

/// A suppressed flash forgets nothing: only its own time moves to `now`.
pub proof fn lemma_suppressed_flash_keeps_others(
    times: Map<Seq<char>, u64>,
    msg: Seq<char>,
    now: u64,
    other: Seq<char>,
)
    requires
        !spec_shows(times, msg, now),
        other != msg,
    ensures
        spec_after_flash(times, msg, now).contains_key(other) == times.contains_key(other),
        times.contains_key(other) ==> spec_after_flash(times, msg, now)[other] == times[other],
{
}

/// The item asks for attention exactly while some flash is unread: its
/// status is "NeedsAttention" for every positive unread count and "Active"
/// for none, and its icon is the error sign for every positive unread count
/// and the information sign for none.
pub proof fn lemma_unread_needs_attention(item: StatusItem)
    ensures
        item.spec_unread() > 0 ==> item.spec_status() == "NeedsAttention"@,
        item.spec_unread() == 0 ==> item.spec_status() == "Active"@,
        item.spec_unread() > 0 ==> item.spec_icon_name() == "dialog-error"@,
        item.spec_unread() == 0 ==> item.spec_icon_name() == "dialog-information"@,
{
}

/// Every shown flash leaves the item asking for attention with the error
/// icon, however many flashes were unread before it.
pub proof fn lemma_shown_flash_asks_attention(before: StatusItem, after: StatusItem)
    requires
        before.spec_unread() < u16::MAX,
        after.spec_unread() == before.spec_unread() + 1,
    ensures
        after.spec_status() == "NeedsAttention"@,
        after.spec_icon_name() == "dialog-error"@,
{
}

/// A shown flash forgets only what is older than `FLASH_EXPIRATION_INTERVAL`:
/// every other text seen at most that long before it is still remembered,
/// with the time it was seen.
pub proof fn lemma_shown_flash_keeps_recent(
    times: Map<Seq<char>, u64>,
    msg: Seq<char>,
    now: u64,
    other: Seq<char>,
)
    requires
        spec_shows(times, msg, now),
        other != msg,
        times.contains_key(other),
        elapsed(now, times[other]) <= FLASH_EXPIRATION_INTERVAL,
    ensures
        spec_after_flash(times, msg, now).contains_key(other),
        spec_after_flash(times, msg, now)[other] == times[other],
{
}

/// A shown flash forgets the texts seen more than `FLASH_EXPIRATION_INTERVAL`
/// before it, and remembers no text that was not seen.
pub proof fn lemma_shown_flash_forgets_expired(
    times: Map<Seq<char>, u64>,
    msg: Seq<char>,
    now: u64,
    other: Seq<char>,
)
    requires
        spec_shows(times, msg, now),
        other != msg,
        !(times.contains_key(other) && elapsed(now, times[other]) <= FLASH_EXPIRATION_INTERVAL),
    ensures
        !spec_after_flash(times, msg, now).contains_key(other),
{
}

/// A text is suppressed when it flashes again within `FLASH_CUTOFF_INTERVAL`,
/// whatever other flash came in between: seen at `first`, then some flash at
/// `between`, then the same text at `second`, it is not shown the second
/// time.
pub proof fn lemma_repeat_suppressed_across_other_flash(
    times: Map<Seq<char>, u64>,
    msg: Seq<char>,
    other: Seq<char>,
    first: u64,
    between: u64,
    second: u64,
)
    requires
        first <= between,
        between <= second,
        second - first <= FLASH_CUTOFF_INTERVAL,
    ensures
        !spec_shows(
            spec_after_flash(spec_after_flash(times, msg, first), other, between),
            msg,
            second,
        ),
{
    let t1 = spec_after_flash(times, msg, first);
    assert(t1.contains_key(msg) && t1[msg] == first);
    let t2 = spec_after_flash(t1, other, between);
    if other == msg {
        assert(t2.contains_key(msg) && t2[msg] == between);
    } else {
        assert(elapsed(between, first) <= FLASH_EXPIRATION_INTERVAL);
        assert(t2.contains_key(msg) && t2[msg] == first);
    }
}

} // verus!
