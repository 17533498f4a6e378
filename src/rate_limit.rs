//! Per-client admission control: a fixed window of requests per client key.
use vstd::prelude::*;

verus! {

/// How many requests a key has made in its current window, and when that
/// window ends (in the caller's clock units, e.g. milliseconds).
#[derive(Clone, Copy, Debug, PartialEq, Eq, Structural)]
pub struct RateLimitEntry {
    pub count: usize,
    pub reset_at: u64,
}

/// One key's entry as stored.
struct Slot {
    key: String,
    entry: RateLimitEntry,
}

/// The entries of `m` whose window has not ended at `now`.
pub open spec fn live(m: Map<Seq<char>, RateLimitEntry>, now: u64) -> Map<Seq<char>, RateLimitEntry> {
    Map::new(|k: Seq<char>| m.contains_key(k) && m[k].reset_at > now, |k: Seq<char>| m[k])
}

/// The end of a window opened at `now`, held at the clock's largest value.
pub open spec fn window_end(now: u64, window: u64) -> u64 {
    if now as int + window as int > u64::MAX as int {
        u64::MAX
    } else {
        (now + window) as u64
    }
}

/// One admission decision on the entries `m`: whether the call from `key` at
/// `now` is refused, and the entries afterwards. Ended windows are dropped
/// first; a key with no live window opens one with a count of 1; a live window
/// under `max` counts the call; a full one refuses it.
pub open spec fn check_step(
    m: Map<Seq<char>, RateLimitEntry>,
    key: Seq<char>,
    now: u64,
    max: usize,
    window: u64,
) -> (bool, Map<Seq<char>, RateLimitEntry>) {
    let l = live(m, now);
    if l.contains_key(key) {
        if l[key].count >= max {
            (true, l)
        } else {
            (false, l.insert(key, RateLimitEntry { count: (l[key].count + 1) as usize, reset_at: l[key].reset_at }))
        }
    } else {
        (false, l.insert(key, RateLimitEntry { count: 1, reset_at: window_end(now, window) }))
    }
}

spec fn keys_unique(s: Seq<Slot>) -> bool {
    forall|i: int, j: int| 0 <= i < j < s.len() ==> s[i].key@ != s[j].key@
}

spec fn slots_match(s: Seq<Slot>, m: Map<Seq<char>, RateLimitEntry>) -> bool {
    &&& keys_unique(s)
    &&& forall|k: Seq<char>| #[trigger] m.contains_key(k) <==> exists|i: int| 0 <= i < s.len() && s[i].key@ == k
    &&& forall|i: int| 0 <= i < s.len() ==> m.contains_key(#[trigger] s[i].key@) && m[s[i].key@] == s[i].entry
}

proof fn lemma_match_set(s: Seq<Slot>, m: Map<Seq<char>, RateLimitEntry>, i: int, slot: Slot)
    requires
        slots_match(s, m),
        0 <= i < s.len(),
        slot.key@ == s[i].key@,
    ensures
        slots_match(s.update(i, slot), m.insert(slot.key@, slot.entry)),
{
    let t = s.update(i, slot);
    let n = m.insert(slot.key@, slot.entry);
    assert forall|k: Seq<char>| #[trigger] n.contains_key(k) implies exists|j: int|
        0 <= j < t.len() && t[j].key@ == k by {
        if k != slot.key@ {
            let j = choose|j: int| 0 <= j < s.len() && s[j].key@ == k;
            assert(t[j].key@ == k);
        } else {
            assert(t[i].key@ == k);
        }
    }
    assert forall|j: int| 0 <= j < t.len() implies n.contains_key(#[trigger] t[j].key@) && n[t[j].key@]
        == t[j].entry by {
        if j != i {
            assert(s[j].key@ != s[i].key@);
        }
    }
}

proof fn lemma_match_push(s: Seq<Slot>, m: Map<Seq<char>, RateLimitEntry>, slot: Slot)
    requires
        slots_match(s, m),
        forall|j: int| 0 <= j < s.len() ==> s[j].key@ != slot.key@,
    ensures
        slots_match(s.push(slot), m.insert(slot.key@, slot.entry)),
{
    let t = s.push(slot);
    let n = m.insert(slot.key@, slot.entry);
    assert forall|k: Seq<char>| #[trigger] n.contains_key(k) implies exists|j: int|
        0 <= j < t.len() && t[j].key@ == k by {
        if k != slot.key@ {
            let j = choose|j: int| 0 <= j < s.len() && s[j].key@ == k;
            assert(t[j].key@ == k);
        } else {
            assert(t[s.len() as int].key@ == k);
        }
    }
    assert forall|k: Seq<char>| (exists|j: int| 0 <= j < t.len() && t[j].key@ == k) implies #[trigger] n.contains_key(k) by {
        let j = choose|j: int| 0 <= j < t.len() && t[j].key@ == k;
        if j < s.len() {
            assert(m.contains_key(s[j].key@));
        }
    }
    assert forall|j: int| 0 <= j < t.len() implies n.contains_key(#[trigger] t[j].key@) && n[t[j].key@]
        == t[j].entry by {
        if j < s.len() {
            assert(m.contains_key(s[j].key@));
        }
    }
}

/// The decisions on successive calls from `key` at the times `times`, starting
/// from the entries `m`, and the entries afterwards.
pub open spec fn run_checks(
    m: Map<Seq<char>, RateLimitEntry>,
    key: Seq<char>,
    times: Seq<u64>,
    max: usize,
    window: u64,
) -> (Seq<bool>, Map<Seq<char>, RateLimitEntry>)
    decreases times.len(),
{
    if times.len() == 0 {
        (Seq::empty(), m)
    } else {
        let prev = run_checks(m, key, times.drop_last(), max, window);
        let step = check_step(prev.1, key, times.last(), max, window);
        (prev.0.push(step.0), step.1)
    }
}

/// Within one window, opened by the first of the calls, exactly the first
/// `max` calls from a key are admitted and every later one is refused; the
/// key's entry then counts `min(calls, max)` and ends where the first call's
/// window ends.
pub proof fn lemma_window_admits_first_max(
    m: Map<Seq<char>, RateLimitEntry>,
    key: Seq<char>,
    times: Seq<u64>,
    max: usize,
    window: u64,
)
    requires
        max >= 1,
        times.len() >= 1,
        !live(m, times[0]).contains_key(key),
        forall|i: int| 0 <= i < times.len() ==> times[0] <= #[trigger] times[i] < window_end(times[0], window),
    ensures
        run_checks(m, key, times, max, window).0.len() == times.len(),
        forall|i: int| 0 <= i < times.len() ==> #[trigger] run_checks(m, key, times, max, window).0[i] == (i >= max),
        run_checks(m, key, times, max, window).1.contains_key(key),
        run_checks(m, key, times, max, window).1[key] == (RateLimitEntry {
            count: if times.len() <= max { times.len() as usize } else { max },
            reset_at: window_end(times[0], window),
        }),
    decreases times.len(),
{
    let n = times.len();
    let end = window_end(times[0], window);
    if n == 1 {
        assert(times.drop_last().len() == 0);
        let prev = run_checks(m, key, times.drop_last(), max, window);
        assert(prev.1 == m);
        assert(times.last() == times[0]);
    } else {
        let front = times.drop_last();
        assert(front[0] == times[0]);
        assert forall|i: int| 0 <= i < front.len() implies front[0] <= #[trigger] front[i] < window_end(
            front[0],
            window,
        ) by {
            assert(front[i] == times[i]);
        }
        lemma_window_admits_first_max(m, key, front, max, window);
        let prev = run_checks(m, key, front, max, window);
        let t = times.last();
        assert(t == times[n - 1]);
        assert(live(prev.1, t).contains_key(key));
        let r = run_checks(m, key, times, max, window);
        assert forall|i: int| 0 <= i < n implies #[trigger] r.0[i] == (i >= max) by {
            if i < n - 1 {
                assert(r.0[i] == prev.0[i]);
            }
        }
    }
}

/// Once a key's window has ended, its next call is admitted and opens a new
/// window with a count of 1.
pub proof fn lemma_ended_window_restarts(
    m: Map<Seq<char>, RateLimitEntry>,
    key: Seq<char>,
    now: u64,
    max: usize,
    window: u64,
)
    requires
        m.contains_key(key) ==> m[key].reset_at <= now,
    ensures
        !check_step(m, key, now, max, window).0,
        check_step(m, key, now, max, window).1[key] == (RateLimitEntry {
            count: 1,
            reset_at: window_end(now, window),
        }),
{
}

/// A per-key request counter over fixed windows.
pub struct RateLimiter {
    slots: Vec<Slot>,
    model: Ghost<Map<Seq<char>, RateLimitEntry>>,
    max_requests: usize,
    window: u64,
}

impl RateLimiter {
    /// The live and ended windows held, by key.
    pub closed spec fn entries(self) -> Map<Seq<char>, RateLimitEntry> {
        self.model@
    }

    pub closed spec fn max(self) -> usize {
        self.max_requests
    }

    pub closed spec fn window_len(self) -> u64 {
        self.window
    }

    pub closed spec fn wf(self) -> bool {
        slots_match(self.slots@, self.model@)
    }

    /// A limiter admitting `max_requests` calls per key in each window of
    /// `window` clock units, holding no entries yet.
    pub fn new(max_requests: usize, window: u64) -> (r: RateLimiter)
        ensures
            r.wf(),
            r.entries() == Map::<Seq<char>, RateLimitEntry>::empty(),
            r.max() == max_requests,
            r.window_len() == window,
    {
        RateLimiter { slots: Vec::new(), model: Ghost(Map::empty()), max_requests, window }
    }

    pub fn max_requests(&self) -> (r: usize)
        ensures
            r == self.max(),
    {
        self.max_requests
    }

    pub fn window(&self) -> (r: u64)
        ensures
            r == self.window_len(),
    {
        self.window
    }

    /// Records a call from `ip` at time `now` and says whether it is refused.
    pub fn is_rate_limited(&mut self, ip: &str, now: u64) -> (limited: bool)
        requires
            old(self).wf(),
        ensures
            final(self).wf(),
            final(self).max() == old(self).max(),
            final(self).window_len() == old(self).window_len(),
            (limited, final(self).entries()) == check_step(
                old(self).entries(),
                ip@,
                now,
                old(self).max(),
                old(self).window_len(),
            ),
    {
        let ghost m = self.model@;
        let ghost l = live(m, now);
        let mut kept: Vec<Slot> = Vec::new();
        let mut i: usize = 0;
        while i < self.slots.len()
            invariant
                slots_match(self.slots@, m),
                l == live(m, now),
                i <= self.slots.len(),
                keys_unique(kept@),
                forall|j: int|
                    0 <= j < kept.len() ==> l.contains_key(#[trigger] kept@[j].key@) && l[kept@[j].key@]
                        == kept@[j].entry && exists|p: int| 0 <= p < i && self.slots@[p].key@ == kept@[j].key@,
                forall|p: int|
                    0 <= p < i && self.slots@[p].entry.reset_at > now ==> exists|j: int|
                        0 <= j < kept.len() && kept@[j].key@ == #[trigger] self.slots@[p].key@,
            decreases self.slots.len() - i,
        {
            let e = self.slots[i].entry;
            if e.reset_at > now {
                let key = self.slots[i].key.clone();
                let ghost before = kept@;
                proof {
                    assert forall|j: int| 0 <= j < kept.len() implies kept@[j].key@ != key@ by {
                        let p = choose|p: int| 0 <= p < i && self.slots@[p].key@ == kept@[j].key@;
                    }
                    assert(m.contains_key(self.slots@[i as int].key@));
                }
                kept.push(Slot { key, entry: e });
                proof {
                    let n = before.len() as int;
                    assert(kept@[n].key@ == self.slots@[i as int].key@);
                    assert forall|j: int| 0 <= j < kept.len() implies l.contains_key(
                        #[trigger] kept@[j].key@,
                    ) && l[kept@[j].key@] == kept@[j].entry && exists|p: int|
                        0 <= p < i + 1 && self.slots@[p].key@ == kept@[j].key@ by {
                        if j < n {
                            assert(kept@[j] == before[j]);
                            let p = choose|p: int| 0 <= p < i && self.slots@[p].key@ == before[j].key@;
                            assert(self.slots@[p].key@ == kept@[j].key@);
                        } else {
                            let k = self.slots@[i as int].key@;
                            assert(k == kept@[j].key@);
                            assert(m[k] == self.slots@[i as int].entry);
                            assert(kept@[j].entry == e);
                            assert(l.contains_key(k));
                            assert(l[k] == e);
                        }
                    }
                    assert forall|p: int|
                        0 <= p < i + 1 && self.slots@[p].entry.reset_at > now implies exists|j: int|
                        0 <= j < kept.len() && kept@[j].key@ == #[trigger] self.slots@[p].key@ by {
                        if p < i {
                            let j = choose|j: int| 0 <= j < before.len() && before[j].key@ == self.slots@[p].key@;
                            assert(kept@[j] == before[j]);
                        } else {
                            assert(kept@[n].key@ == self.slots@[p].key@);
                        }
                    }
                }
            }
            i = i + 1;
        }
        proof {
            assert forall|k: Seq<char>| #[trigger] l.contains_key(k) implies exists|j: int|
                0 <= j < kept.len() && kept@[j].key@ == k by {
                let p = choose|p: int| 0 <= p < self.slots.len() && self.slots@[p].key@ == k;
                assert(self.slots@[p].entry.reset_at > now);
            }
            assert forall|k: Seq<char>| (exists|j: int| 0 <= j < kept.len() && kept@[j].key@ == k) implies #[trigger] l.contains_key(k) by {
                let j = choose|j: int| 0 <= j < kept.len() && kept@[j].key@ == k;
            }
            assert(slots_match(kept@, l));
        }
        let key = ip.to_owned();
        let mut found: usize = kept.len();
        let mut i: usize = 0;
        while i < kept.len()
            invariant
                i <= kept.len(),
                found <= kept.len(),
                key@ == ip@,
                found < kept.len() ==> kept@[found as int].key@ == key@,
                found == kept.len() ==> forall|j: int| 0 <= j < i ==> kept@[j].key@ != key@,
            decreases kept.len() - i,
        {
            if found == kept.len() && kept[i].key == key {
                found = i;
            }
            i = i + 1;
        }
        let limited;
        if found < kept.len() {
            let e = kept[found].entry;
            if e.count >= self.max_requests {
                limited = true;
                proof {
                    self.model = Ghost(l);
                }
            } else {
                let ne = RateLimitEntry { count: e.count + 1, reset_at: e.reset_at };
                let ghost before = kept@;
                proof {
                    lemma_match_set(before, l, found as int, Slot { key, entry: ne });
                }
                kept.set(found, Slot { key, entry: ne });
                limited = false;
                proof {
                    self.model = Ghost(l.insert(ip@, ne));
                }
            }
        } else {
            let end = if now > u64::MAX - self.window {
                u64::MAX
            } else {
                now + self.window
            };
            let ne = RateLimitEntry { count: 1, reset_at: end };
            let ghost before = kept@;
            proof {
                lemma_match_push(before, l, Slot { key, entry: ne });
            }
            kept.push(Slot { key, entry: ne });
            limited = false;
            proof {
                self.model = Ghost(l.insert(ip@, ne));
            }
        }
        self.slots = kept;
        limited
    }
}

} // verus!
