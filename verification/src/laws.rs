//! The library's cross-cutting guarantees, stated and proved over the same
//! spec functions that the components' contracts use.

use vstd::prelude::*;

use crate::admission::{spec_in_window, spec_prune};
use crate::events::{spec_offer, spec_offer_all, SystemEventV};
use crate::history::{spec_append, ToolCallV};
use crate::metrics::{spec_counter_after, MetricValueV};

verus! {

// ---------------------------------------------------------------------------
// Call history
// ---------------------------------------------------------------------------

/// Appending a whole sequence of records, one after the other.
pub open spec fn spec_append_all(
    h: Seq<ToolCallV>,
    cap: Option<usize>,
    cs: Seq<ToolCallV>,
) -> Seq<ToolCallV>
    decreases cs.len(),
{
    if cs.len() == 0 {
        h
    } else {
        spec_append_all(spec_append(h, cap, cs[0]), cap, cs.drop_first())
    }
}

/// No two records share an identifier.
pub open spec fn spec_unique_ids(s: Seq<ToolCallV>) -> bool {
    forall|i: int, j: int| 0 <= i < j < s.len() ==> s[i].id != s[j].id
}

/// Law: as long as a retention cap is not exceeded, the log keeps every
/// appended record, in append order, after the records it already held.
pub proof fn law_history_keeps_all(h: Seq<ToolCallV>, cap: Option<usize>, cs: Seq<ToolCallV>)
    requires
        cap matches Some(k) ==> h.len() + cs.len() <= k,
    ensures
        spec_append_all(h, cap, cs) == h + cs,
    decreases cs.len(),
{
    if cs.len() == 0 {
        assert(h + cs =~= h);
    } else {
        assert(spec_append(h, cap, cs[0]) =~= h.push(cs[0]));
        law_history_keeps_all(h.push(cs[0]), cap, cs.drop_first());
        assert(h.push(cs[0]) + cs.drop_first() =~= h + cs);
    }
}

/// Law: recording any number of calls with distinct identifiers on an
/// unbounded log leaves one record per call and keeps the identifiers
/// distinct.
pub proof fn law_distinct_recordings(cs: Seq<ToolCallV>)
    requires
        spec_unique_ids(cs),
    ensures
        spec_append_all(Seq::empty(), Option::None, cs).len() == cs.len(),
        spec_unique_ids(spec_append_all(Seq::empty(), Option::None, cs)),
{
    law_history_keeps_all(Seq::empty(), Option::None, cs);
    assert(Seq::empty() + cs =~= cs);
}

// ---------------------------------------------------------------------------
// Metric counters
// ---------------------------------------------------------------------------

/// The counter value a key currently stands for: a missing or non-counter
/// sample counts as zero.
pub open spec fn spec_counter_base(m: Map<Seq<char>, MetricValueV>, key: Seq<char>) -> u64 {
    if m.contains_key(key) {
        match m[key] {
            MetricValueV::Counter(c) => c,
            _ => 0u64,
        }
    } else {
        0u64
    }
}

/// The store after `n` unit increments of one counter.
pub open spec fn spec_increment_all(
    m: Map<Seq<char>, MetricValueV>,
    key: Seq<char>,
    n: nat,
) -> Map<Seq<char>, MetricValueV>
    decreases n,
{
    if n == 0 {
        m
    } else {
        let prev = spec_increment_all(m, key, (n - 1) as nat);
        prev.insert(key, MetricValueV::Counter(spec_counter_after(prev, key, 1)))
    }
}

/// Law: no update is lost — after `n` unit increments of one counter, its
/// value is the value before them plus `n`.
pub proof fn law_counter_no_lost_updates(m: Map<Seq<char>, MetricValueV>, key: Seq<char>, n: nat)
    requires
        n >= 1,
        spec_counter_base(m, key) + n <= u64::MAX,
    ensures
        spec_increment_all(m, key, n).contains_key(key),
        spec_increment_all(m, key, n)[key] == MetricValueV::Counter(
            (spec_counter_base(m, key) + n) as u64,
        ),
    decreases n,
{
    if n > 1 {
        law_counter_no_lost_updates(m, key, (n - 1) as nat);
    } else {
        assert(spec_increment_all(m, key, 0) == m);
    }
}

// ---------------------------------------------------------------------------
// Event bus
// ---------------------------------------------------------------------------

/// Law: a queue that never overflows accumulates offered events at its end,
/// in publish order.
pub proof fn law_offer_all_within_capacity(q: Seq<SystemEventV>, cap: nat, es: Seq<SystemEventV>)
    requires
        q.len() + es.len() <= cap,
    ensures
        spec_offer_all(q, cap, es) == q + es,
    decreases es.len(),
{
    if es.len() == 0 {
        assert(q + es =~= q);
    } else {
        assert(spec_offer(q, cap, es[0]) == q.push(es[0]));
        law_offer_all_within_capacity(q.push(es[0]), cap, es.drop_first());
        assert(q.push(es[0]) + es.drop_first() =~= q + es);
    }
}

/// Law: a subscriber that registers after any number of events were
/// published observes none of them — its queue starts empty — and then
/// observes every subsequent event, in publish order, while it keeps up with
/// the bound.
pub proof fn law_fresh_subscriber_sees_only_later(cap: nat, es: Seq<SystemEventV>)
    requires
        es.len() <= cap,
    ensures
        spec_offer_all(Seq::empty(), cap, es) == es,
{
    law_offer_all_within_capacity(Seq::empty(), cap, es);
    assert(Seq::empty() + es =~= es);
}

/// Law: receiving drains a queue front to back — after `k` events were
/// taken, the next one taken is the `k`-th published, and one more receive
/// leaves the events after it.
pub proof fn law_events_received_in_publish_order(q: Seq<SystemEventV>, k: int)
    requires
        0 <= k < q.len(),
    ensures
        q.skip(k)[0] == q[k],
        q.skip(k).drop_first() == q.skip(k + 1),
{
    assert(q.skip(k).drop_first() =~= q.skip(k + 1));
}

// ---------------------------------------------------------------------------
// Admission guard
// ---------------------------------------------------------------------------

/// Whether one attempt at `now` is admitted against the held timestamps.
pub open spec fn spec_guard_decision(
    stamps: Seq<i64>,
    now: i64,
    window_ms: i64,
    max: usize,
) -> bool {
    spec_prune(stamps, now, window_ms).len() < max
}

/// The timestamps held after one attempt at `now`.
pub open spec fn spec_guard_after(
    stamps: Seq<i64>,
    now: i64,
    window_ms: i64,
    max: usize,
) -> Seq<i64> {
    let pruned = spec_prune(stamps, now, window_ms);
    if pruned.len() < max {
        pruned.push(now)
    } else {
        pruned
    }
}

/// The decisions of a run of attempts, one per time.
pub open spec fn spec_guard_run(
    stamps: Seq<i64>,
    times: Seq<i64>,
    window_ms: i64,
    max: usize,
) -> Seq<bool>
    decreases times.len(),
{
    if times.len() == 0 {
        Seq::empty()
    } else {
        seq![spec_guard_decision(stamps, times[0], window_ms, max)] + spec_guard_run(
            spec_guard_after(stamps, times[0], window_ms, max),
            times.drop_first(),
            window_ms,
            max,
        )
    }
}

/// The timestamps held after a run of attempts.
pub open spec fn spec_guard_run_state(
    stamps: Seq<i64>,
    times: Seq<i64>,
    window_ms: i64,
    max: usize,
) -> Seq<i64>
    decreases times.len(),
{
    if times.len() == 0 {
        stamps
    } else {
        spec_guard_run_state(
            spec_guard_after(stamps, times[0], window_ms, max),
            times.drop_first(),
            window_ms,
            max,
        )
    }
}

/// Pruning removes nothing from timestamps that all lie in the window.
proof fn lemma_prune_keeps_in_window(stamps: Seq<i64>, now: i64, window_ms: i64)
    requires
        forall|i: int| 0 <= i < stamps.len() ==> spec_in_window(#[trigger] stamps[i], now, window_ms),
    ensures
        spec_prune(stamps, now, window_ms) == stamps,
    decreases stamps.len(),
{
    if stamps.len() > 0 {
        assert forall|i: int|
            0 <= i < stamps.drop_first().len() implies spec_in_window(
            #[trigger] stamps.drop_first()[i],
            now,
            window_ms,
        ) by {
            assert(stamps.drop_first()[i] == stamps[i + 1]);
        }
        lemma_prune_keeps_in_window(stamps.drop_first(), now, window_ms);
        assert(seq![stamps[0]] + stamps.drop_first() =~= stamps);
    }
}

/// Pruning removes everything when no timestamp lies in the window.
proof fn lemma_prune_drops_stale(stamps: Seq<i64>, now: i64, window_ms: i64)
    requires
        forall|i: int|
            0 <= i < stamps.len() ==> !spec_in_window(#[trigger] stamps[i], now, window_ms),
    ensures
        spec_prune(stamps, now, window_ms) == Seq::<i64>::empty(),
    decreases stamps.len(),
{
    if stamps.len() > 0 {
        assert forall|i: int|
            0 <= i < stamps.drop_first().len() implies !spec_in_window(
            #[trigger] stamps.drop_first()[i],
            now,
            window_ms,
        ) by {
            assert(stamps.drop_first()[i] == stamps[i + 1]);
        }
        lemma_prune_drops_stale(stamps.drop_first(), now, window_ms);
    }
}

/// Law (first part): attempts that stay within the limit are all admitted,
/// and each leaves its timestamp behind — held and new timestamps all lying
/// within the window of every attempt.
pub proof fn law_attempts_under_limit_admitted(
    held: Seq<i64>,
    times: Seq<i64>,
    window_ms: i64,
    max: usize,
)
    requires
        held.len() + times.len() <= max,
        forall|i: int, j: int|
            0 <= i < held.len() && 0 <= j < times.len() ==> spec_in_window(
                #[trigger] held[i],
                #[trigger] times[j],
                window_ms,
            ),
        forall|i: int, j: int|
            0 <= i <= j < times.len() ==> spec_in_window(
                #[trigger] times[i],
                #[trigger] times[j],
                window_ms,
            ),
    ensures
        spec_guard_run(held, times, window_ms, max) == Seq::new(times.len(), |i: int| true),
        spec_guard_run_state(held, times, window_ms, max) == held + times,
    decreases times.len(),
{
    if times.len() == 0 {
        assert(held + times =~= held);
        assert(spec_guard_run(held, times, window_ms, max) =~= Seq::new(
            times.len(),
            |i: int| true,
        ));
    } else {
        assert forall|i: int|
            0 <= i < held.len() implies spec_in_window(#[trigger] held[i], times[0], window_ms) by {}
        lemma_prune_keeps_in_window(held, times[0], window_ms);
        assert(spec_guard_decision(held, times[0], window_ms, max));
        assert(spec_guard_after(held, times[0], window_ms, max) == held.push(times[0]));
        let held2 = held.push(times[0]);
        assert forall|i: int, j: int|
            0 <= i < held2.len() && 0 <= j < times.drop_first().len() implies spec_in_window(
            #[trigger] held2[i],
            #[trigger] times.drop_first()[j],
            window_ms,
        ) by {
            assert(times.drop_first()[j] == times[j + 1]);
            if i < held.len() {
                assert(held2[i] == held[i]);
            } else {
                assert(held2[i] == times[0]);
            }
        }
        assert forall|i: int, j: int|
            0 <= i <= j < times.drop_first().len() implies spec_in_window(
            #[trigger] times.drop_first()[i],
            #[trigger] times.drop_first()[j],
            window_ms,
        ) by {
            assert(times.drop_first()[i] == times[i + 1]);
            assert(times.drop_first()[j] == times[j + 1]);
        }
        law_attempts_under_limit_admitted(held2, times.drop_first(), window_ms, max);
        assert(held2 + times.drop_first() =~= held + times);
        assert(seq![true] + Seq::new(times.drop_first().len(), |i: int| true) =~= Seq::new(
            times.len(),
            |i: int| true,
        ));
    }
}

/// Law (second part): once the held timestamps within the window have
/// reached the limit, a further attempt within the window is rejected, and
/// records nothing.
pub proof fn law_attempt_over_limit_rejected(held: Seq<i64>, now: i64, window_ms: i64, max: usize)
    requires
        held.len() >= max,
        forall|i: int| 0 <= i < held.len() ==> spec_in_window(#[trigger] held[i], now, window_ms),
    ensures
        !spec_guard_decision(held, now, window_ms, max),
        spec_guard_after(held, now, window_ms, max) == held,
{
    lemma_prune_keeps_in_window(held, now, window_ms);
}

/// Law (third part): once the window has elapsed past every held timestamp,
/// an attempt is admitted again.
pub proof fn law_attempt_after_window_admitted(held: Seq<i64>, now: i64, window_ms: i64, max: usize)
    requires
        max >= 1,
        forall|i: int| 0 <= i < held.len() ==> !spec_in_window(#[trigger] held[i], now, window_ms),
    ensures
        spec_guard_decision(held, now, window_ms, max),
{
    lemma_prune_drops_stale(held, now, window_ms);
}

/// Law: for a limit of `max`, attempts at `times` (all mutually within the
/// window) are all admitted while they number at most `max`, and one more
/// attempt within the window is then rejected.
pub proof fn law_sliding_window_rate_limit(times: Seq<i64>, extra: i64, window_ms: i64, max: usize)
    requires
        times.len() == max,
        forall|i: int, j: int|
            0 <= i <= j < times.len() ==> spec_in_window(
                #[trigger] times[i],
                #[trigger] times[j],
                window_ms,
            ),
        forall|i: int| 0 <= i < times.len() ==> spec_in_window(#[trigger] times[i], extra, window_ms),
    ensures
        spec_guard_run(Seq::empty(), times, window_ms, max) == Seq::new(
            times.len(),
            |i: int| true,
        ),
        !spec_guard_decision(
            spec_guard_run_state(Seq::empty(), times, window_ms, max),
            extra,
            window_ms,
            max,
        ),
{
    law_attempts_under_limit_admitted(Seq::empty(), times, window_ms, max);
    assert(Seq::empty() + times =~= times);
    law_attempt_over_limit_rejected(times, extra, window_ms, max);
}

} // verus!
