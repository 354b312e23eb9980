//! Presence tracking with lazy eviction, and periodic archival of the count.
//!
//! [`OnlineUsers`] maps caller identities (network address strings) to the
//! last moment they were seen. An identity is counted as online while its
//! last keep-alive is younger than [`EVICTION_WINDOW_MS`]; stale entries are
//! not dropped the moment they expire but by a sweep that [`OnlineUsers::count`]
//! runs at most every [`SWEEP_INTERVAL_MS`].
//!
//! As everywhere in this crate, the clock is an argument: `now` is a
//! millisecond reading of the caller's monotone clock.
use vstd::prelude::*;

verus! {

broadcast use vstd::map::group_map_axioms, vstd::set::group_set_axioms;

/// How long an identity stays counted after its last keep-alive, in ms.
pub const EVICTION_WINDOW_MS: u64 = 70_000;

/// How much time must pass between two eviction sweeps, in ms.
pub const SWEEP_INTERVAL_MS: u64 = 10_000;

/// One tracked identity and the last moment it was seen.
pub struct PresenceEntry {
    /// The identity (a network address string).
    pub ip: String,
    /// When it last sent a keep-alive, in ms.
    pub last_seen: u64,
}

/// The map an entry list denotes: each ip to its last-seen time, later
/// entries winning. The tracker keeps ips unique, so order never matters.
pub open spec fn entries_map(s: Seq<PresenceEntry>) -> Map<Seq<char>, u64>
    decreases s.len(),
{
    if s.len() == 0 {
        Map::empty()
    } else {
        entries_map(s.drop_last()).insert(s.last().ip@, s.last().last_seen)
    }
}

/// No identity occurs twice in the entry list.
pub open spec fn unique_ips(s: Seq<PresenceEntry>) -> bool {
    forall|i: int, j: int| 0 <= i < j < s.len() ==> (#[trigger] s[i]).ip@ != (#[trigger] s[j]).ip@
}

/// Whether an identity last seen at `last_seen` still counts as online at `now`.
pub open spec fn spec_recent(last_seen: u64, now: int) -> bool {
    now - last_seen < EVICTION_WINDOW_MS
}

/// The presence map after an eviction sweep at time `now`: exactly the
/// identities still recent, with their timestamps untouched.
pub open spec fn swept(m: Map<Seq<char>, u64>, now: int) -> Map<Seq<char>, u64> {
    Map::new(|k: Seq<char>| m.dom().contains(k) && spec_recent(m[k], now), |k: Seq<char>| m[k])
}

/// Whether `count` at time `now` runs a sweep first.
pub open spec fn sweep_due(last_cleanup_at: u64, now: int) -> bool {
    now - last_cleanup_at >= SWEEP_INTERVAL_MS
}

/// The swept map without the identities in `pending`: the state of a sweep in
/// progress, `pending` being what is not yet processed.
spec fn swept_except(m: Map<Seq<char>, u64>, pending: Set<Seq<char>>, now: int) -> Map<
    Seq<char>,
    u64,
> {
    Map::new(
        |k: Seq<char>| m.dom().contains(k) && spec_recent(m[k], now) && !pending.contains(k),
        |k: Seq<char>| m[k],
    )
}

/// The domain of an entry list's map is exactly the set of its ips.
proof fn lemma_entries_map_dom(s: Seq<PresenceEntry>)
    ensures
        forall|k: Seq<char>| entries_map(s).dom().contains(k)
            <==> exists|i: int| 0 <= i < s.len() && (#[trigger] s[i]).ip@ == k,
    decreases s.len(),
{
    if s.len() > 0 {
        lemma_entries_map_dom(s.drop_last());
        assert(entries_map(s) == entries_map(s.drop_last()).insert(s.last().ip@, s.last().last_seen));
        assert forall|k: Seq<char>| entries_map(s).dom().contains(k)
            implies exists|i: int| 0 <= i < s.len() && (#[trigger] s[i]).ip@ == k by {
            if k == s.last().ip@ {
                assert(s[s.len() - 1].ip@ == k);
            } else {
                assert(entries_map(s.drop_last()).dom().contains(k));
                let i = choose|i: int| 0 <= i < s.drop_last().len() && (#[trigger] s.drop_last()[i]).ip@ == k;
                assert(s.drop_last()[i] == s[i]);
                assert(s[i].ip@ == k);
            }
        }
        assert forall|k: Seq<char>| (exists|i: int| 0 <= i < s.len() && (#[trigger] s[i]).ip@ == k)
            implies entries_map(s).dom().contains(k) by {
            let i = choose|i: int| 0 <= i < s.len() && (#[trigger] s[i]).ip@ == k;
            if i < s.len() - 1 {
                assert(s.drop_last()[i].ip@ == k);
            }
        }
    }
}

/// Removing the entry at `i` removes exactly its ip from the map.
proof fn lemma_entries_map_remove(s: Seq<PresenceEntry>, i: int)
    requires
        unique_ips(s),
        0 <= i < s.len(),
    ensures
        unique_ips(s.remove(i)),
        entries_map(s.remove(i)) =~= entries_map(s).remove(s[i].ip@),
    decreases s.len(),
{
    lemma_entries_map_dom(s);
    lemma_entries_map_dom(s.drop_last());
    if i == s.len() - 1 {
        assert(s.remove(i) =~= s.drop_last());
        assert(!entries_map(s.drop_last()).dom().contains(s[i].ip@));
        assert(entries_map(s.drop_last()) =~= entries_map(s).remove(s[i].ip@));
    } else {
        assert(unique_ips(s.drop_last()));
        lemma_entries_map_remove(s.drop_last(), i);
        assert(s.remove(i).drop_last() =~= s.drop_last().remove(i));
        assert(s.remove(i).last() == s.last());
        assert(entries_map(s.remove(i)) == entries_map(s.drop_last().remove(i)).insert(
            s.last().ip@,
            s.last().last_seen,
        ));
        assert(s[i].ip@ != s.last().ip@);
        assert(entries_map(s.drop_last()).remove(s[i].ip@).insert(s.last().ip@, s.last().last_seen)
            =~= entries_map(s).remove(s[i].ip@));
    }
}

/// With unique ips, the list and the map have the same size, and the map's
/// domain is finite.
proof fn lemma_entries_map_len(s: Seq<PresenceEntry>)
    requires
        unique_ips(s),
    ensures
        entries_map(s).dom().finite(),
        entries_map(s).dom().len() == s.len(),
    decreases s.len(),
{
    if s.len() > 0 {
        assert(unique_ips(s.drop_last()));
        lemma_entries_map_len(s.drop_last());
        lemma_entries_map_dom(s.drop_last());
        assert(!entries_map(s.drop_last()).dom().contains(s.last().ip@));
    }
}

/// Who is online right now: identities mapped to their last keep-alive,
/// together with the time of the last eviction sweep.
pub struct OnlineUsers {
    users: Vec<PresenceEntry>,
    last_cleanup_at: u64,
}

impl View for OnlineUsers {
    type V = Map<Seq<char>, u64>;

    closed spec fn view(&self) -> Map<Seq<char>, u64> {
        entries_map(self.users@)
    }
}

impl OnlineUsers {
    /// Validity: no identity is tracked twice.
    pub closed spec fn wf(&self) -> bool {
        unique_ips(self.users@)
    }

    /// When the last eviction sweep ran, in ms.
    pub closed spec fn spec_last_cleanup_at(&self) -> u64 {
        self.last_cleanup_at
    }

    /// An empty tracker whose sweep clock starts at `now`.
    pub fn new(now: u64) -> (s: Self)
        ensures
            s.wf(),
            s@ == Map::<Seq<char>, u64>::empty(),
            s.spec_last_cleanup_at() == now,
    {
        OnlineUsers { users: Vec::new(), last_cleanup_at: now }
    }

    /// Records that `ip` was seen at `now`, inserting or refreshing its entry.
    pub fn keep_alive(&mut self, ip: String, now: u64)
        requires
            old(self).wf(),
        ensures
            final(self).wf(),
            final(self)@ == old(self)@.insert(ip@, now),
            final(self).spec_last_cleanup_at() == old(self).spec_last_cleanup_at(),
    {
        let n = self.users.len();
        let mut i: usize = 0;
        while i < n
            invariant
                n == self.users@.len(),
                i <= n,
                forall|j: int| 0 <= j < i ==> (#[trigger] self.users@[j]).ip@ != ip@,
            ensures
                i <= n,
                i < n ==> self.users@[i as int].ip@ == ip@,
                forall|j: int| 0 <= j < i ==> (#[trigger] self.users@[j]).ip@ != ip@,
            decreases n - i,
        {
            if self.users[i].ip == ip {
                break;
            }
            i += 1;
        }
        if i < n {
            proof {
                lemma_entries_map_remove(self.users@, i as int);
            }
            self.users.remove(i);
        }
        let ghost pre = self.users@;
        proof {
            lemma_entries_map_dom(pre);
            assert forall|j: int| 0 <= j < pre.len() implies (#[trigger] pre[j]).ip@ != ip@ by {
                if pre[j].ip@ == ip@ {
                    assert(entries_map(pre).dom().contains(ip@));
                }
            }
        }
        self.users.push(PresenceEntry { ip, last_seen: now });
        proof {
            assert(self.users@.drop_last() =~= pre);
            assert(unique_ips(self.users@)) by {
                assert forall|a: int, b: int| 0 <= a < b < self.users@.len()
                    implies (#[trigger] self.users@[a]).ip@ != (#[trigger] self.users@[b]).ip@ by {
                    if b == self.users@.len() - 1 {
                        assert(self.users@[a] == pre[a]);
                    } else {
                        assert(self.users@[a] == pre[a] && self.users@[b] == pre[b]);
                    }
                }
            }
            assert(entries_map(self.users@) =~= old(self)@.insert(ip@, now));
        }
    }

    /// Evicts every identity whose last keep-alive is at least
    /// [`EVICTION_WINDOW_MS`] old, and restarts the sweep clock at `now`.
    fn cleanup(&mut self, now: u64)
        requires
            old(self).wf(),
        ensures
            final(self).wf(),
            final(self)@ == swept(old(self)@, now as int),
            final(self).spec_last_cleanup_at() == now,
    {
        self.last_cleanup_at = now;
        let ghost orig = self.users@;
        let ghost orig_map = entries_map(orig);
        let mut kept: Vec<PresenceEntry> = Vec::new();
        proof {
            assert(entries_map(kept@) =~= swept_except(orig_map, entries_map(self.users@).dom(), now as int));
        }
        while self.users.len() > 0
            invariant
                self.last_cleanup_at == now,
                unique_ips(self.users@),
                unique_ips(kept@),
                forall|k: Seq<char>| #[trigger] entries_map(self.users@).dom().contains(k)
                    ==> orig_map.dom().contains(k) && entries_map(self.users@)[k] == orig_map[k],
                entries_map(kept@) =~= swept_except(orig_map, entries_map(self.users@).dom(), now as int),
            decreases self.users@.len(),
        {
            let ghost before = self.users@;
            let ghost before_map = entries_map(before);
            let e = self.users.pop().unwrap();
            let ghost k = e.ip@;
            proof {
                assert(self.users@ =~= before.drop_last());
                assert(before_map == entries_map(self.users@).insert(k, e.last_seen));
                lemma_entries_map_dom(self.users@);
                assert forall|j: int| 0 <= j < self.users@.len()
                    implies (#[trigger] self.users@[j]).ip@ != k by {
                    assert(self.users@[j] == before[j]);
                    assert(before[before.len() - 1].ip@ == k);
                }
                assert(!entries_map(self.users@).dom().contains(k));
                assert(before_map.dom().contains(k));
                assert(before_map[k] == e.last_seen);
                assert(orig_map.dom().contains(k) && orig_map[k] == e.last_seen);
                lemma_entries_map_dom(kept@);
                assert(!entries_map(kept@).dom().contains(k));
                assert forall|j: int| 0 <= j < kept@.len() implies (#[trigger] kept@[j]).ip@ != k by {
                    if kept@[j].ip@ == k {
                        assert(entries_map(kept@).dom().contains(k));
                    }
                }
            }
            let keep = (e.last_seen as u128) + (EVICTION_WINDOW_MS as u128) > (now as u128);
            if keep {
                let ghost kept_pre = kept@;
                kept.push(e);
                proof {
                    assert(kept@.drop_last() =~= kept_pre);
                    assert(unique_ips(kept@)) by {
                        assert forall|a: int, b: int| 0 <= a < b < kept@.len()
                            implies (#[trigger] kept@[a]).ip@ != (#[trigger] kept@[b]).ip@ by {
                            assert(kept@[a] == kept_pre[a]);
                            if b < kept@.len() - 1 {
                                assert(kept@[b] == kept_pre[b]);
                            }
                        }
                    }
                    assert(entries_map(kept@) =~= swept_except(
                        orig_map,
                        entries_map(self.users@).dom(),
                        now as int,
                    ));
                }
            } else {
                proof {
                    assert(entries_map(kept@) =~= swept_except(
                        orig_map,
                        entries_map(self.users@).dom(),
                        now as int,
                    ));
                }
            }
            proof {
                assert forall|k2: Seq<char>| #[trigger] entries_map(self.users@).dom().contains(k2)
                    implies orig_map.dom().contains(k2) && entries_map(self.users@)[k2]
                    == orig_map[k2] by {
                    assert(k2 != k);
                    assert(before_map.dom().contains(k2));
                    assert(before_map[k2] == entries_map(self.users@)[k2]);
                }
            }
        }
        self.users = kept;
        proof {
            assert(entries_map(self.users@) =~= swept(orig_map, now as int));
        }
    }

    /// The number of identities currently online. When the last sweep is at
    /// least [`SWEEP_INTERVAL_MS`] old, a sweep runs first, so the answer
    /// never includes an identity more than a sweep interval past its
    /// eviction window. Counts beyond `u32::MAX` saturate.
    pub fn count(&mut self, now: u64) -> (n: u32)
        requires
            old(self).wf(),
        ensures
            final(self).wf(),
            final(self)@ == (if sweep_due(old(self).spec_last_cleanup_at(), now as int) {
                swept(old(self)@, now as int)
            } else {
                old(self)@
            }),
            final(self).spec_last_cleanup_at() == (if sweep_due(
                old(self).spec_last_cleanup_at(),
                now as int,
            ) {
                now
            } else {
                old(self).spec_last_cleanup_at()
            }),
            n == (if final(self)@.dom().len() >= u32::MAX {
                u32::MAX
            } else {
                final(self)@.dom().len() as u32
            }),
    {
        if (now as u128) >= (self.last_cleanup_at as u128) + (SWEEP_INTERVAL_MS as u128) {
            self.cleanup(now);
        }
        proof {
            lemma_entries_map_len(self.users@);
        }
        let len = self.users.len();
        if len >= u32::MAX as usize {
            u32::MAX
        } else {
            len as u32
        }
    }
}

/// One durable time-series record: how many identities were online at a
/// given moment. Append-only; written by the archival loop, read back by the
/// chart aggregation.
#[derive(Clone, Copy, Debug, PartialEq, Eq, Structural)]
pub struct TimeSeriesSample {
    /// When the sample was taken, in ms.
    pub timestamp: u64,
    /// The tracker's count at that moment.
    pub count: u32,
}

/// Timestamps never decrease along the sequence.
pub open spec fn sorted_by_time(h: Seq<TimeSeriesSample>) -> bool {
    forall|i: int, j: int| 0 <= i <= j < h.len()
        ==> (#[trigger] h[i]).timestamp <= (#[trigger] h[j]).timestamp
}

/// The compute side of the archival loop: at each tick it reads the
/// tracker's count once and forms the sample the caller then persists. The
/// caller owns the waiting and the durable write; a failed write only means
/// the sample is lost, the archiver and the tracker are not affected.
pub struct Archiver {
    last_tick_at: u64,
    history: Ghost<Seq<TimeSeriesSample>>,
}

impl Archiver {
    /// Every sample this archiver has produced, in production order.
    pub closed spec fn history(&self) -> Seq<TimeSeriesSample> {
        self.history@
    }

    /// When the last tick ran (or when the archiver started), in ms.
    pub closed spec fn spec_last_tick_at(&self) -> u64 {
        self.last_tick_at
    }

    /// Validity: the history is time-sorted and never younger than the last tick.
    pub closed spec fn wf(&self) -> bool {
        &&& sorted_by_time(self.history@)
        &&& forall|i: int| 0 <= i < self.history@.len()
            ==> (#[trigger] self.history@[i]).timestamp <= self.last_tick_at
    }

    /// An archiver that starts ticking at `start`.
    pub fn new(start: u64) -> (a: Self)
        ensures
            a.wf(),
            a.history() == Seq::<TimeSeriesSample>::empty(),
            a.spec_last_tick_at() == start,
    {
        Archiver { last_tick_at: start, history: Ghost(Seq::empty()) }
    }

    /// One archival tick at time `now`: reads the tracker's count (sweeping
    /// if a sweep is due, exactly as [`OnlineUsers::count`] does) and returns
    /// the sample to persist. Successive ticks yield non-decreasing
    /// timestamps, and the sample's count is exactly the tracker's count at
    /// `now`.
    pub fn archive_tick(&mut self, users: &mut OnlineUsers, now: u64) -> (s: TimeSeriesSample)
        requires
            old(self).wf(),
            old(users).wf(),
            now >= old(self).spec_last_tick_at(),
        ensures
            final(self).wf(),
            final(users).wf(),
            s.timestamp == now,
            final(users)@ == (if sweep_due(old(users).spec_last_cleanup_at(), now as int) {
                swept(old(users)@, now as int)
            } else {
                old(users)@
            }),
            s.count == (if final(users)@.dom().len() >= u32::MAX {
                u32::MAX
            } else {
                final(users)@.dom().len() as u32
            }),
            final(self).history() == old(self).history().push(s),
            final(self).spec_last_tick_at() == now,
    {
        let online_count = users.count(now);
        let s = TimeSeriesSample { timestamp: now, count: online_count };
        self.last_tick_at = now;
        proof {
            self.history@ = self.history@.push(s);
            assert forall|i: int, j: int| 0 <= i <= j < self.history@.len()
                implies (#[trigger] self.history@[i]).timestamp
                <= (#[trigger] self.history@[j]).timestamp by {
                if j < self.history@.len() - 1 {
                    assert(self.history@[i] == old(self).history()[i]);
                    assert(self.history@[j] == old(self).history()[j]);
                } else if i < self.history@.len() - 1 {
                    assert(self.history@[i] == old(self).history()[i]);
                }
            }
        }
        s
    }
}

/// One archived sample as the chart producer reads it back from durable
/// storage: the calendar fields of the stored timestamp, plus the count.
/// (The store owns the timestamp decoding; this type carries plain values.)
pub struct ChartSample {
    /// Month of year, `1..=12`.
    pub month: u8,
    /// Day of month, `1..=31`.
    pub day: u8,
    /// Hour of day, `0..24`.
    pub hour: u8,
    /// Minute of hour, `0..60`.
    pub minute: u8,
    /// The archived count.
    pub count: u32,
}

impl ChartSample {
    /// Calendar validity of the timestamp fields.
    pub open spec fn valid(&self) -> bool {
        &&& 1 <= self.month <= 12
        &&& 1 <= self.day <= 31
        &&& self.hour < 24
        &&& self.minute < 60
    }
}

/// The chart label of one sample: day and month, then hour and minute, each
/// zero-padded to two digits (`dd.mm HH:MM`).
pub open spec fn spec_label(s: ChartSample) -> Seq<char> {
    crate::encode::two_digits(s.day as nat) + seq!['.'] + crate::encode::two_digits(s.month as nat)
        + seq![' '] + crate::encode::two_digits(s.hour as nat) + seq![':']
        + crate::encode::two_digits(s.minute as nat)
}

/// Renders one sample's chart label.
pub fn format_label(s: &ChartSample) -> (r: String)
    requires
        s.valid(),
    ensures
        r@ == spec_label(*s),
{
    proof {
        reveal_strlit(".");
        reveal_strlit(" ");
        reveal_strlit(":");
    }
    let mut r = String::new();
    crate::encode::push_two_digits(&mut r, s.day);
    r.append(".");
    crate::encode::push_two_digits(&mut r, s.month);
    r.append(" ");
    crate::encode::push_two_digits(&mut r, s.hour);
    r.append(":");
    crate::encode::push_two_digits(&mut r, s.minute);
    proof {
        assert(r@ =~= spec_label(*s));
    }
    r
}

/// The chart series: human-readable time labels and raw counts, one of each
/// per sample and index-aligned, in the order the samples were given
/// (newest first, as the store hands them back).
pub struct ChartData {
    /// `dd.mm HH:MM` per sample.
    pub time_labels: Vec<String>,
    /// The archived count per sample.
    pub counts: Vec<u32>,
}

/// Transforms archived samples into the two index-aligned chart series,
/// preserving their order.
pub fn get_chart_data(samples: &Vec<ChartSample>) -> (d: ChartData)
    requires
        forall|i: int| 0 <= i < samples@.len() ==> (#[trigger] samples@[i]).valid(),
    ensures
        d.time_labels@.len() == samples@.len(),
        d.counts@.len() == samples@.len(),
        forall|i: int| 0 <= i < samples@.len() ==> (#[trigger] d.time_labels@[i])@ == spec_label(
            samples@[i],
        ),
        forall|i: int| 0 <= i < samples@.len() ==> #[trigger] d.counts@[i] == samples@[i].count,
{
    let n = samples.len();
    let mut time_labels: Vec<String> = Vec::new();
    let mut counts: Vec<u32> = Vec::new();
    let mut i: usize = 0;
    while i < n
        invariant
            n == samples@.len(),
            i <= n,
            time_labels@.len() == i,
            counts@.len() == i,
            forall|j: int| 0 <= j < samples@.len() ==> (#[trigger] samples@[j]).valid(),
            forall|j: int| 0 <= j < i ==> (#[trigger] time_labels@[j])@ == spec_label(samples@[j]),
            forall|j: int| 0 <= j < i ==> #[trigger] counts@[j] == samples@[j].count,
        decreases n - i,
    {
        let label = format_label(&samples[i]);
        time_labels.push(label);
        counts.push(samples[i].count);
        i += 1;
    }
    ChartData { time_labels, counts }
}

/// Archival monotonicity: the samples an archiver has produced so far carry
/// non-decreasing timestamps. (That each sample's count equals the tracker's
/// count at its moment is [`Archiver::archive_tick`]'s own contract.)
pub proof fn lemma_archival_monotonic(a: &Archiver, i: int, j: int)
    requires
        a.wf(),
        0 <= i <= j < a.history().len(),
    ensures
        a.history()[i].timestamp <= a.history()[j].timestamp,
{
}

/// Presence eviction: a sweep at time `now` drops exactly the identities
/// whose last keep-alive is at least the eviction window old. An identity
/// silent for the whole window is gone after the sweep; one whose last
/// keep-alive (say at time `t`, by however many repeated calls) is younger
/// than the window survives the sweep with its timestamp intact.
pub proof fn lemma_presence_eviction(m: Map<Seq<char>, u64>, ip: Seq<char>, t: u64, now: int)
    ensures
        m.dom().contains(ip) && now - m[ip] >= EVICTION_WINDOW_MS ==> !swept(m, now).dom().contains(ip),
        m.dom().contains(ip) && now - m[ip] < EVICTION_WINDOW_MS ==> swept(m, now).dom().contains(ip)
            && swept(m, now)[ip] == m[ip],
        !m.dom().contains(ip) ==> !swept(m, now).dom().contains(ip),
        now - t < EVICTION_WINDOW_MS ==> swept(m.insert(ip, t), now).dom().contains(ip)
            && swept(m.insert(ip, t), now)[ip] == t,
{
}

} // verus!
