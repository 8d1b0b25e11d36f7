//! Connection admission: a per-source-address sliding-window rate limiter
//! and an origin allow-list check, gating new live-stream connections.

use vstd::prelude::*;

verus! {

/// Whether a connection attempt at `stamp` still counts against the window
/// ending at `now`.
pub open spec fn spec_in_window(stamp: i64, now: i64, window_ms: i64) -> bool {
    now - stamp < window_ms
}

/// The attempt timestamps that survive pruning: those still in the window,
/// in their original order.
pub open spec fn spec_prune(stamps: Seq<i64>, now: i64, window_ms: i64) -> Seq<i64>
    decreases stamps.len(),
{
    if stamps.len() == 0 {
        Seq::empty()
    } else {
        let rest = spec_prune(stamps.drop_first(), now, window_ms);
        if spec_in_window(stamps[0], now, window_ms) {
            seq![stamps[0]] + rest
        } else {
            rest
        }
    }
}

/// The timestamps tracked for an address: `None` when the address has no
/// entry at all.
pub open spec fn spec_lookup(entries: Seq<(Seq<char>, Seq<i64>)>, addr: Seq<char>) -> Option<
    Seq<i64>,
>
    decreases entries.len(),
{
    if entries.len() == 0 {
        None
    } else if entries[0].0 == addr {
        Some(entries[0].1)
    } else {
        spec_lookup(entries.drop_first(), addr)
    }
}

/// The timestamps counted for an address: an address without an entry has
/// counted none.
pub open spec fn spec_stamps_of(entries: Seq<(Seq<char>, Seq<i64>)>, addr: Seq<char>) -> Seq<
    i64,
> {
    match spec_lookup(entries, addr) {
        Some(s) => s,
        None => Seq::empty(),
    }
}

/// Per-source-address sliding-window rate limiter for live-stream
/// connections.
///
/// For each address it keeps the timestamps of recent connection attempts;
/// an attempt is admitted while fewer than the configured maximum fall
/// within the trailing window.
#[derive(Debug)]
pub struct WebSocketRateLimiter {
    connections: Vec<(String, Vec<i64>)>,
    max_connections_per_ip: usize,
    window_ms: i64,
}

/// How a connection attempt is answered.
#[derive(Debug, Clone, Copy, PartialEq, Eq, Structural)]
pub enum AdmissionDecision {
    /// The connection may attach to the event bus.
    Allowed,
    /// Too many recent attempts from this source address.
    RateLimited,
    /// The presented origin is not on the allow-list.
    OriginRejected,
}

impl View for WebSocketRateLimiter {
    type V = Seq<(Seq<char>, Seq<i64>)>;

    closed spec fn view(&self) -> Seq<(Seq<char>, Seq<i64>)> {
        Seq::new(
            self.connections@.len(),
            |i: int| (self.connections@[i].0@, self.connections@[i].1@),
        )
    }
}

impl WebSocketRateLimiter {
    /// The most attempts allowed within one window.
    pub closed spec fn spec_max_per_ip(&self) -> usize {
        self.max_connections_per_ip
    }

    /// The length of the sliding window, in milliseconds.
    pub closed spec fn spec_window_ms(&self) -> i64 {
        self.window_ms
    }

    /// Tracked addresses are distinct, every stored timestamp is
    /// non-negative, and the window is positive.
    pub open spec fn wf(&self) -> bool {
        &&& self.spec_window_ms() >= 1
        &&& forall|i: int, j: int| 0 <= i < j < self@.len() ==> self@[i].0 != self@[j].0
        &&& forall|i: int, t: int|
            0 <= i < self@.len() && 0 <= t < self@[i].1.len() ==> #[trigger] self@[i].1[t] >= 0
    }

    /// A limiter with the given bounds.
    pub fn with_limits(max_connections_per_ip: usize, window_ms: i64) -> (r: Self)
        requires
            window_ms >= 1,
        ensures
            r.wf(),
            r@.len() == 0,
            r.spec_max_per_ip() == max_connections_per_ip,
            r.spec_window_ms() == window_ms,
    {
        WebSocketRateLimiter { connections: Vec::new(), max_connections_per_ip, window_ms }
    }

    /// The default limiter: at most 10 connections per address per minute.
    pub fn new() -> (r: Self)
        ensures
            r.wf(),
            r@.len() == 0,
            r.spec_max_per_ip() == 10,
            r.spec_window_ms() == 60000,
    {
        Self::with_limits(10, 60000)
    }

    /// One connection attempt from `addr` at time `now_ms`: timestamps that
    /// fell out of the window are pruned; the attempt is rejected when the
    /// remaining count has reached the maximum, and otherwise recorded and
    /// admitted.  A rejected attempt still leaves the pruned entry behind.
    pub fn check_rate_limit(&mut self, addr: &str, now_ms: i64) -> (r: bool)
        requires
            old(self).wf(),
            now_ms >= 0,
        ensures
            final(self).wf(),
            final(self).spec_max_per_ip() == old(self).spec_max_per_ip(),
            final(self).spec_window_ms() == old(self).spec_window_ms(),
            r == (spec_prune(
                spec_stamps_of(old(self)@, addr@),
                now_ms,
                old(self).spec_window_ms(),
            ).len() < old(self).spec_max_per_ip()),
            spec_stamps_of(final(self)@, addr@) == {
                let pruned = spec_prune(
                    spec_stamps_of(old(self)@, addr@),
                    now_ms,
                    old(self).spec_window_ms(),
                );
                if pruned.len() < old(self).spec_max_per_ip() {
                    pruned.push(now_ms)
                } else {
                    pruned
                }
            },
            spec_lookup(final(self)@, addr@) is Some,
            forall|a: Seq<char>|
                a != addr@ ==> #[trigger] spec_lookup(final(self)@, a) == spec_lookup(
                    old(self)@,
                    a,
                ),
    {
        let pruned = match self.find_index(addr) {
            Some(idx) => {
                proof {
                    assert(self@[idx as int].1 == self.connections@[idx as int].1@);
                }
                let stamps = &self.connections[idx].1;
                prune_stamps(stamps, now_ms, self.window_ms)
            },
            None => {
                proof {
                    assert(spec_prune(Seq::<i64>::empty(), now_ms, self.window_ms) =~= Seq::<
                        i64,
                    >::empty());
                }
                Vec::new()
            },
        };
        let admitted = pruned.len() < self.max_connections_per_ip;
        let mut updated = pruned;
        if admitted {
            updated.push(now_ms);
        }
        self.store_entry(addr, updated);
        admitted
    }

    /// Removes every timestamp that fell out of the window, and every
    /// address left with no timestamp in the window.
    pub fn cleanup(&mut self, now_ms: i64)
        requires
            old(self).wf(),
            now_ms >= 0,
        ensures
            final(self).wf(),
            final(self).spec_max_per_ip() == old(self).spec_max_per_ip(),
            final(self).spec_window_ms() == old(self).spec_window_ms(),
            forall|a: Seq<char>| #[trigger]
                spec_lookup(final(self)@, a) == {
                    let pruned = spec_prune(
                        spec_stamps_of(old(self)@, a),
                        now_ms,
                        old(self).spec_window_ms(),
                    );
                    if spec_lookup(old(self)@, a) is Some && pruned.len() > 0 {
                        Some(pruned)
                    } else {
                        None
                    }
                },
    {
        let ghost orig = self@;
        let ghost w = self.window_ms;
        let mut kept: Vec<(String, Vec<i64>)> = Vec::new();
        proof {
            assert(orig.take(0) =~= Seq::<(Seq<char>, Seq<i64>)>::empty());
        }
        let mut i: usize = 0;
        while i < self.connections.len()
            invariant
                i <= orig.len(),
                self@ == orig,
                self.window_ms == w,
                w >= 1,
                now_ms >= 0,
                orig.len() == self.connections@.len(),
                forall|p: int, q: int| 0 <= p < q < orig.len() ==> orig[p].0 != orig[q].0,
                forall|p: int, t: int|
                    0 <= p < orig.len() && 0 <= t < orig[p].1.len() ==> #[trigger] orig[p].1[t]
                        >= 0,
                forall|p: int, q: int|
                    0 <= p < q < kept_view(kept@).len() ==> kept_view(kept@)[p].0 != kept_view(
                        kept@,
                    )[q].0,
                forall|p: int, t: int|
                    0 <= p < kept_view(kept@).len() && 0 <= t < kept_view(kept@)[p].1.len()
                        ==> #[trigger] kept_view(kept@)[p].1[t] >= 0,
                forall|a: Seq<char>| #[trigger]
                    spec_lookup(kept_view(kept@), a) == {
                        let pruned = spec_prune(spec_stamps_of(orig.take(i as int), a), now_ms, w);
                        if spec_lookup(orig.take(i as int), a) is Some && pruned.len() > 0 {
                            Some(pruned)
                        } else {
                            None
                        }
                    },
            decreases orig.len() - i,
        {
            proof {
                assert(self@[i as int].1 == self.connections@[i as int].1@);
                assert(self@[i as int].0 == self.connections@[i as int].0@);
            }
            let key = self.connections[i].0.clone();
            let stamps = &self.connections[i].1;
            let pruned = prune_stamps(stamps, now_ms, self.window_ms);
            let ghost kept_before = kept_view(kept@);
            let ghost pruned_i = spec_prune(orig[i as int].1, now_ms, w);
            proof {
                assert forall|j: int| 0 <= j < orig.take(i as int).len() implies orig.take(
                    i as int,
                )[j].0 != orig[i as int].0 by {
                    assert(orig.take(i as int)[j] == orig[j]);
                }
                lemma_lookup_absent(orig.take(i as int), orig[i as int].0);
                assert(spec_lookup(kept_before, orig[i as int].0) is None);
            }
            if pruned.len() > 0 {
                let ghost pruned_view = pruned@;
                kept.push((key, pruned));
                proof {
                    assert(kept_view(kept@) =~= kept_before.push((orig[i as int].0, pruned_i)));
                    lemma_lookup_absent_converse(kept_before, orig[i as int].0);
                    assert forall|p: int, q: int|
                        0 <= p < q < kept_view(kept@).len() implies kept_view(kept@)[p].0
                        != kept_view(kept@)[q].0 by {
                        assert(kept_view(kept@)[p] == kept_before[p]);
                        if q == kept_view(kept@).len() - 1 {
                            assert(kept_view(kept@)[q].0 == orig[i as int].0);
                        } else {
                            assert(kept_view(kept@)[q] == kept_before[q]);
                        }
                    }
                    assert forall|p: int, t: int|
                        0 <= p < kept_view(kept@).len() && 0 <= t < kept_view(kept@)[p].1.len()
                        implies #[trigger] kept_view(kept@)[p].1[t] >= 0 by {
                        if p == kept_view(kept@).len() - 1 {
                            assert(kept_view(kept@)[p].1 == pruned_view);
                        } else {
                            assert(kept_view(kept@)[p] == kept_before[p]);
                        }
                    }
                }
            }
            proof {
                lemma_cleanup_step(orig, kept_view(kept@), kept_before, i as int, now_ms, w);
            }
            i = i + 1;
        }
        proof {
            assert(orig.take(orig.len() as int) =~= orig);
        }
        let ghost kv = kept_view(kept@);
        self.connections = kept;
        proof {
            assert(self@ =~= kv);
        }
    }

    /// The position of an address in the tracking table.
    fn find_index(&self, addr: &str) -> (r: Option<usize>)
        ensures
            match r {
                Some(idx) => idx < self@.len() && self@[idx as int].0 == addr@ && spec_lookup(
                    self@,
                    addr@,
                ) == Some(self@[idx as int].1),
                None => spec_lookup(self@, addr@) is None,
            },
    {
        proof {
            assert(self@.skip(0) =~= self@);
        }
        let mut i: usize = 0;
        while i < self.connections.len()
            invariant
                i <= self@.len(),
                self@.len() == self.connections@.len(),
                spec_lookup(self@, addr@) == spec_lookup(self@.skip(i as int), addr@),
            decreases self@.len() - i,
        {
            proof {
                assert(self@.skip(i as int).drop_first() =~= self@.skip(i + 1));
                assert(self@.skip(i as int)[0] == self@[i as int]);
                assert(self@[i as int].0 == self.connections@[i as int].0@);
            }
            let hit = crate::strings_equal(&self.connections[i].0, addr);
            if hit {
                return Some(i);
            }
            i = i + 1;
        }
        proof {
            assert(self@.skip(self@.len() as int) =~= Seq::<(Seq<char>, Seq<i64>)>::empty());
        }
        None
    }

    /// Binds `addr` to `stamps`, replacing its entry or adding one.
    fn store_entry(&mut self, addr: &str, stamps: Vec<i64>)
        requires
            old(self).wf(),
            forall|t: int| 0 <= t < stamps@.len() ==> stamps@[t] >= 0,
        ensures
            final(self).wf(),
            final(self).spec_max_per_ip() == old(self).spec_max_per_ip(),
            final(self).spec_window_ms() == old(self).spec_window_ms(),
            spec_lookup(final(self)@, addr@) == Some(stamps@),
            forall|a: Seq<char>|
                a != addr@ ==> #[trigger] spec_lookup(final(self)@, a) == spec_lookup(
                    old(self)@,
                    a,
                ),
    {
        let ghost orig = self@;
        match self.find_index(addr) {
            Some(idx) => {
                let key = self.connections[idx].0.clone();
                self.connections[idx] = (key, stamps);
                proof {
                    assert(self@ =~= orig.update(idx as int, (addr@, stamps@)));
                    lemma_lookup_update(orig, idx as int, stamps@);
                    assert forall|p: int, q: int| 0 <= p < q < self@.len() implies self@[p].0
                        != self@[q].0 by {
                        assert(orig[p].0 != orig[q].0);
                    }
                    assert forall|p: int, t: int|
                        0 <= p < self@.len() && 0 <= t < self@[p].1.len() implies #[trigger] self@[p].1[t]
                        >= 0 by {
                        if p != idx as int {
                            assert(self@[p] == orig[p]);
                        }
                    }
                }
            },
            None => {
                proof {
                    lemma_lookup_absent_converse(orig, addr@);
                }
                self.connections.push((addr.to_owned(), stamps));
                proof {
                    assert(self@ =~= orig.push((addr@, stamps@)));
                    lemma_lookup_push(orig, addr@, stamps@);
                    assert forall|p: int, q: int| 0 <= p < q < self@.len() implies self@[p].0
                        != self@[q].0 by {
                        if q < orig.len() {
                            assert(orig[p].0 != orig[q].0);
                        } else {
                            assert(self@[q].0 == addr@);
                            assert(orig[p].0 != addr@);
                        }
                    }
                    assert forall|p: int, t: int|
                        0 <= p < self@.len() && 0 <= t < self@[p].1.len() implies #[trigger] self@[p].1[t]
                        >= 0 by {
                        if p < orig.len() {
                            assert(self@[p] == orig[p]);
                        }
                    }
                }
            },
        }
    }
}

/// The origin view of an optional header value.
pub open spec fn spec_origin_view(origin: &Option<String>) -> Option<Seq<char>> {
    match origin {
        Some(o) => Some(o@),
        None => None,
    }
}

/// The views of an allow-list.
pub open spec fn spec_allowed_view(allowed: &Vec<String>) -> Seq<Seq<char>> {
    Seq::new(allowed@.len(), |i: int| allowed@[i]@)
}

/// Whether a connection's origin passes: a permissive (development)
/// configuration accepts everything; otherwise an origin header must be
/// present and on the allow-list.
pub open spec fn spec_origin_allowed(
    origin: Option<Seq<char>>,
    allowed: Seq<Seq<char>>,
    permissive: bool,
) -> bool {
    ||| permissive
    ||| (origin matches Some(o) && allowed.contains(o))
}

/// Validates a connection's origin header against the allow-list; a
/// permissive configuration skips the check entirely.
pub fn origin_allowed(
    origin: &Option<String>,
    allowed_origins: &Vec<String>,
    permissive: bool,
) -> (r: bool)
    ensures
        r == spec_origin_allowed(
            spec_origin_view(origin),
            spec_allowed_view(allowed_origins),
            permissive,
        ),
{
    if permissive {
        return true;
    }
    match origin {
        None => false,
        Some(o) => {
            proof {
                assert(spec_origin_view(origin) == Some(o@));
            }
            let mut i: usize = 0;
            while i < allowed_origins.len()
                invariant
                    i <= allowed_origins@.len(),
                    spec_origin_view(origin) == Some(o@),
                    !permissive,
                    forall|j: int| 0 <= j < i ==> allowed_origins@[j]@ != o@,
                decreases allowed_origins@.len() - i,
            {
                let hit = crate::strings_equal(&allowed_origins[i], o.as_str());
                if hit {
                    proof {
                        assert(spec_allowed_view(allowed_origins)[i as int] == o@);
                        assert(spec_allowed_view(allowed_origins).contains(o@));
                        assert(spec_origin_allowed(
                            Some(o@),
                            spec_allowed_view(allowed_origins),
                            permissive,
                        ));
                    }
                    return true;
                }
                i = i + 1;
            }
            proof {
                assert forall|j: int|
                    0 <= j < spec_allowed_view(allowed_origins).len() implies spec_allowed_view(
                    allowed_origins,
                )[j] != o@ by {}
            }
            false
        },
    }
}

impl WebSocketRateLimiter {
    /// Gates one new live-stream connection: the rate limit is checked (and
    /// the attempt recorded) first, then the origin; the two rejections are
    /// distinct so that callers can answer them differently.
    pub fn admit_connection(
        &mut self,
        source_address: &str,
        origin: &Option<String>,
        allowed_origins: &Vec<String>,
        permissive: bool,
        now_ms: i64,
    ) -> (r: AdmissionDecision)
        requires
            old(self).wf(),
            now_ms >= 0,
        ensures
            final(self).wf(),
            final(self).spec_max_per_ip() == old(self).spec_max_per_ip(),
            final(self).spec_window_ms() == old(self).spec_window_ms(),
            r == {
                let pruned = spec_prune(
                    spec_stamps_of(old(self)@, source_address@),
                    now_ms,
                    old(self).spec_window_ms(),
                );
                if pruned.len() >= old(self).spec_max_per_ip() {
                    AdmissionDecision::RateLimited
                } else if !spec_origin_allowed(
                    spec_origin_view(origin),
                    spec_allowed_view(allowed_origins),
                    permissive,
                ) {
                    AdmissionDecision::OriginRejected
                } else {
                    AdmissionDecision::Allowed
                }
            },
            spec_stamps_of(final(self)@, source_address@) == {
                let pruned = spec_prune(
                    spec_stamps_of(old(self)@, source_address@),
                    now_ms,
                    old(self).spec_window_ms(),
                );
                if pruned.len() < old(self).spec_max_per_ip() {
                    pruned.push(now_ms)
                } else {
                    pruned
                }
            },
            forall|a: Seq<char>|
                a != source_address@ ==> #[trigger] spec_lookup(final(self)@, a) == spec_lookup(
                    old(self)@,
                    a,
                ),
    {
        if !self.check_rate_limit(source_address, now_ms) {
            return AdmissionDecision::RateLimited;
        }
        if !origin_allowed(origin, allowed_origins, permissive) {
            return AdmissionDecision::OriginRejected;
        }
        AdmissionDecision::Allowed
    }
}

/// The view of a tracking table.
pub open spec fn kept_view(entries: Seq<(String, Vec<i64>)>) -> Seq<(Seq<char>, Seq<i64>)> {
    Seq::new(entries.len(), |i: int| (entries[i].0@, entries[i].1@))
}

/// Keeps exactly the timestamps still inside the window, in order.
fn prune_stamps(stamps: &Vec<i64>, now_ms: i64, window_ms: i64) -> (r: Vec<i64>)
    requires
        now_ms >= 0,
        forall|t: int| 0 <= t < stamps@.len() ==> stamps@[t] >= 0,
    ensures
        r@ == spec_prune(stamps@, now_ms, window_ms),
        forall|t: int| 0 <= t < r@.len() ==> r@[t] >= 0,
{
    let mut r: Vec<i64> = Vec::new();
    proof {
        assert(stamps@.skip(0) =~= stamps@);
        assert(Seq::<i64>::empty() + spec_prune(stamps@, now_ms, window_ms) =~= spec_prune(
            stamps@,
            now_ms,
            window_ms,
        ));
    }
    let mut i: usize = 0;
    while i < stamps.len()
        invariant
            i <= stamps@.len(),
            now_ms >= 0,
            forall|t: int| 0 <= t < stamps@.len() ==> stamps@[t] >= 0,
            forall|t: int| 0 <= t < r@.len() ==> r@[t] >= 0,
            spec_prune(stamps@, now_ms, window_ms) == r@ + spec_prune(
                stamps@.skip(i as int),
                now_ms,
                window_ms,
            ),
        decreases stamps@.len() - i,
    {
        proof {
            assert(stamps@.skip(i as int).drop_first() =~= stamps@.skip(i + 1));
            assert(stamps@.skip(i as int)[0] == stamps@[i as int]);
        }
        let t = stamps[i];
        let ghost pre = r@;
        if now_ms - t < window_ms {
            r.push(t);
            proof {
                assert(pre + (seq![stamps@[i as int]] + spec_prune(
                    stamps@.skip(i + 1),
                    now_ms,
                    window_ms,
                )) =~= r@ + spec_prune(stamps@.skip(i + 1), now_ms, window_ms));
            }
        }
        i = i + 1;
    }
    proof {
        assert(stamps@.skip(stamps@.len() as int) =~= Seq::<i64>::empty());
        assert(r@ + Seq::<i64>::empty() =~= r@);
    }
    r
}

/// An address that no entry carries is not found.
proof fn lemma_lookup_absent(entries: Seq<(Seq<char>, Seq<i64>)>, addr: Seq<char>)
    requires
        forall|j: int| 0 <= j < entries.len() ==> (#[trigger] entries[j]).0 != addr,
    ensures
        spec_lookup(entries, addr) is None,
    decreases entries.len(),
{
    if entries.len() > 0 {
        assert forall|j: int| 0 <= j < entries.drop_first().len() implies (#[trigger] entries.drop_first()[j]).0
            != addr by {
            assert(entries.drop_first()[j] == entries[j + 1]);
        }
        lemma_lookup_absent(entries.drop_first(), addr);
    }
}

/// An address that is not found is carried by no entry.
proof fn lemma_lookup_absent_converse(entries: Seq<(Seq<char>, Seq<i64>)>, addr: Seq<char>)
    requires
        spec_lookup(entries, addr) is None,
    ensures
        forall|j: int| 0 <= j < entries.len() ==> (#[trigger] entries[j]).0 != addr,
    decreases entries.len(),
{
    if entries.len() > 0 {
        lemma_lookup_absent_converse(entries.drop_first(), addr);
        assert forall|j: int| 0 <= j < entries.len() implies (#[trigger] entries[j]).0 != addr by {
            if j > 0 {
                assert(entries.drop_first()[j - 1] == entries[j]);
            }
        }
    }
}

/// Lookup through a push: the pushed key is found when it was absent before;
/// every other address, and a key already present, is answered as before.
proof fn lemma_lookup_take_push(
    prefix: Seq<(Seq<char>, Seq<i64>)>,
    key: Seq<char>,
    stamps: Seq<i64>,
    a: Seq<char>,
)
    ensures
        a == key && spec_lookup(prefix, a) is None ==> spec_lookup(prefix.push((key, stamps)), a)
            == Some(stamps),
        a != key ==> spec_lookup(prefix.push((key, stamps)), a) == spec_lookup(prefix, a),
        a == key && spec_lookup(prefix, a) is Some ==> spec_lookup(prefix.push((key, stamps)), a)
            == spec_lookup(prefix, a),
    decreases prefix.len(),
{
    if prefix.len() == 0 {
        assert(prefix.push((key, stamps))[0] == (key, stamps));
        assert(prefix.push((key, stamps)).drop_first() =~= Seq::<(Seq<char>, Seq<i64>)>::empty());
        if a != key {
            assert(spec_lookup(prefix.push((key, stamps)), a) == spec_lookup(
                prefix.push((key, stamps)).drop_first(),
                a,
            ));
            assert(spec_lookup(Seq::<(Seq<char>, Seq<i64>)>::empty(), a) is None);
        }
    } else {
        lemma_lookup_take_push(prefix.drop_first(), key, stamps, a);
        assert(prefix.push((key, stamps))[0] == prefix[0]);
        assert(prefix.push((key, stamps)).drop_first() =~= prefix.drop_first().push(
            (key, stamps),
        ));
        if prefix[0].0 == a {
            assert(spec_lookup(prefix.push((key, stamps)), a) == Some(prefix[0].1));
            assert(spec_lookup(prefix, a) == Some(prefix[0].1));
        } else {
            assert(spec_lookup(prefix.push((key, stamps)), a) == spec_lookup(
                prefix.drop_first().push((key, stamps)),
                a,
            ));
            assert(spec_lookup(prefix, a) == spec_lookup(prefix.drop_first(), a));
        }
    }
}

/// Binding a fresh address finds the new stamps and leaves every other
/// address unchanged.
proof fn lemma_lookup_push(entries: Seq<(Seq<char>, Seq<i64>)>, addr: Seq<char>, stamps: Seq<i64>)
    requires
        spec_lookup(entries, addr) is None,
    ensures
        spec_lookup(entries.push((addr, stamps)), addr) == Some(stamps),
        forall|a: Seq<char>|
            a != addr ==> #[trigger] spec_lookup(entries.push((addr, stamps)), a) == spec_lookup(
                entries,
                a,
            ),
{
    lemma_lookup_take_push(entries, addr, stamps, addr);
    assert forall|a: Seq<char>| a != addr implies #[trigger] spec_lookup(
        entries.push((addr, stamps)),
        a,
    ) == spec_lookup(entries, a) by {
        lemma_lookup_take_push(entries, addr, stamps, a);
    }
}

/// Replacing the stamps at the position where an address is bound rebinds
/// only that address.
proof fn lemma_lookup_update(entries: Seq<(Seq<char>, Seq<i64>)>, idx: int, stamps: Seq<i64>)
    requires
        0 <= idx < entries.len(),
        forall|i: int, j: int| 0 <= i < j < entries.len() ==> entries[i].0 != entries[j].0,
    ensures
        spec_lookup(entries.update(idx, (entries[idx].0, stamps)), entries[idx].0) == Some(stamps),
        forall|a: Seq<char>|
            a != entries[idx].0 ==> #[trigger] spec_lookup(
                entries.update(idx, (entries[idx].0, stamps)),
                a,
            ) == spec_lookup(entries, a),
    decreases entries.len(),
{
    let upd = entries.update(idx, (entries[idx].0, stamps));
    if idx == 0 {
        assert(upd[0] == (entries[0].0, stamps));
        assert(upd.drop_first() =~= entries.drop_first());
        assert forall|a: Seq<char>| a != entries[idx].0 implies #[trigger] spec_lookup(upd, a)
            == spec_lookup(entries, a) by {
            assert(spec_lookup(upd, a) == spec_lookup(upd.drop_first(), a));
            assert(spec_lookup(entries, a) == spec_lookup(entries.drop_first(), a));
        }
    } else {
        assert forall|i: int, j: int|
            0 <= i < j < entries.drop_first().len() implies entries.drop_first()[i].0
            != entries.drop_first()[j].0 by {
            assert(entries.drop_first()[i] == entries[i + 1]);
            assert(entries.drop_first()[j] == entries[j + 1]);
        }
        lemma_lookup_update(entries.drop_first(), idx - 1, stamps);
        assert(entries.drop_first()[idx - 1] == entries[idx]);
        assert(upd[0] == entries[0]);
        assert(upd.drop_first() =~= entries.drop_first().update(
            idx - 1,
            (entries[idx].0, stamps),
        ));
        assert(entries[0].0 != entries[idx].0);
        assert(spec_lookup(upd, entries[idx].0) == spec_lookup(upd.drop_first(), entries[idx].0));
        assert forall|a: Seq<char>| a != entries[idx].0 implies #[trigger] spec_lookup(upd, a)
            == spec_lookup(entries, a) by {
            if entries[0].0 == a {
                assert(spec_lookup(upd, a) == Some(entries[0].1));
                assert(spec_lookup(entries, a) == Some(entries[0].1));
            } else {
                assert(spec_lookup(upd, a) == spec_lookup(upd.drop_first(), a));
                assert(spec_lookup(entries, a) == spec_lookup(entries.drop_first(), a));
            }
        }
    }
}

/// One step of the sweep: after deciding entry `i`, lookups against the
/// prefix of length `i + 1` are answered as the contract of `cleanup` says.
proof fn lemma_cleanup_step(
    orig: Seq<(Seq<char>, Seq<i64>)>,
    kept_now: Seq<(Seq<char>, Seq<i64>)>,
    kept_before: Seq<(Seq<char>, Seq<i64>)>,
    i: int,
    now_ms: i64,
    w: i64,
)
    requires
        0 <= i < orig.len(),
        forall|p: int, q: int| 0 <= p < q < orig.len() ==> orig[p].0 != orig[q].0,
        spec_lookup(kept_before, orig[i].0) is None,
        spec_lookup(orig.take(i), orig[i].0) is None,
        forall|a: Seq<char>| #[trigger]
            spec_lookup(kept_before, a) == {
                let pruned = spec_prune(spec_stamps_of(orig.take(i), a), now_ms, w);
                if spec_lookup(orig.take(i), a) is Some && pruned.len() > 0 {
                    Some(pruned)
                } else {
                    None
                }
            },
        spec_prune(orig[i].1, now_ms, w).len() > 0 ==> kept_now == kept_before.push(
            (orig[i].0, spec_prune(orig[i].1, now_ms, w)),
        ),
        spec_prune(orig[i].1, now_ms, w).len() == 0 ==> kept_now == kept_before,
    ensures
        forall|a: Seq<char>| #[trigger]
            spec_lookup(kept_now, a) == {
                let pruned = spec_prune(spec_stamps_of(orig.take(i + 1), a), now_ms, w);
                if spec_lookup(orig.take(i + 1), a) is Some && pruned.len() > 0 {
                    Some(pruned)
                } else {
                    None
                }
            },
{
    assert(orig.take(i + 1) =~= orig.take(i).push(orig[i]));
    assert forall|a: Seq<char>| #[trigger]
        spec_lookup(kept_now, a) == {
            let pruned = spec_prune(spec_stamps_of(orig.take(i + 1), a), now_ms, w);
            if spec_lookup(orig.take(i + 1), a) is Some && pruned.len() > 0 {
                Some(pruned)
            } else {
                None
            }
        } by {
        lemma_lookup_take_push(orig.take(i), orig[i].0, orig[i].1, a);
        if spec_prune(orig[i].1, now_ms, w).len() > 0 {
            lemma_lookup_push(kept_before, orig[i].0, spec_prune(orig[i].1, now_ms, w));
        }
    }
}

} // verus!
