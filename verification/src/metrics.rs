//! Typed metric samples and the concurrent store that collects them.

use vstd::prelude::*;

verus! {

/// Mathematical model of a metric sample.
pub ghost enum MetricValueV {
    Counter(u64),
    Gauge(u64),
    Histogram(Seq<u64>),
}

/// One metric sample.
///
/// Counters are monotonic and replaced with their increment; gauges are
/// replaced with the latest reading; histograms collect every observation.
/// Gauge readings and histogram observations are kept as the 64 raw bits of
/// the caller's floating-point value: the core never computes on them, it
/// only stores and hands them back.
#[derive(Debug)]
pub enum MetricValue {
    /// Incrementing counter.
    Counter(u64),
    /// Current reading, as raw bits.
    Gauge(u64),
    /// Distribution of observations, as raw bits, oldest first.
    Histogram(Vec<u64>),
}

impl View for MetricValue {
    type V = MetricValueV;

    open spec fn view(&self) -> MetricValueV {
        match self {
            MetricValue::Counter(c) => MetricValueV::Counter(*c),
            MetricValue::Gauge(g) => MetricValueV::Gauge(*g),
            MetricValue::Histogram(h) => MetricValueV::Histogram(h@),
        }
    }
}

impl Clone for MetricValue {
    fn clone(&self) -> (r: Self)
        ensures
            r@ == self@,
    {
        match self {
            MetricValue::Counter(c) => MetricValue::Counter(*c),
            MetricValue::Gauge(g) => MetricValue::Gauge(*g),
            MetricValue::Histogram(h) => {
                let mut copy: Vec<u64> = Vec::new();
                let mut i: usize = 0;
                while i < h.len()
                    invariant
                        i <= h@.len(),
                        copy@ == h@.take(i as int),
                    decreases h@.len() - i,
                {
                    copy.push(h[i]);
                    assert(copy@ =~= h@.take(i + 1));
                    i = i + 1;
                }
                assert(copy@ =~= h@);
                MetricValue::Histogram(copy)
            },
        }
    }
}

/// The bindings a metric map currently holds.
pub uninterp spec fn metric_map_of(m: &dashmap::DashMap<String, MetricValue>) -> Map<
    Seq<char>,
    MetricValueV,
>;

/// Relies on `dashmap::DashMap::new`: an empty map.
#[verifier::external_body]
fn dm_metrics_new() -> (r: dashmap::DashMap<String, MetricValue>)
    ensures
        metric_map_of(&r).dom() == Set::<Seq<char>>::empty(),
{
    dashmap::DashMap::new()
}

/// Relies on `dashmap::DashMap::insert`: binds `k` to `v`.
#[verifier::external_body]
fn dm_metrics_insert(m: &mut dashmap::DashMap<String, MetricValue>, k: String, v: MetricValue)
    ensures
        metric_map_of(final(m)) == metric_map_of(old(m)).insert(k@, v@),
{
    m.insert(k, v);
}

/// Relies on `dashmap::DashMap::get`: the binding of `k`, if any, copied out
/// through the library's own `Clone`.
#[verifier::external_body]
fn dm_metrics_get(m: &dashmap::DashMap<String, MetricValue>, k: &str) -> (r: Option<MetricValue>)
    ensures
        match r {
            Some(v) => metric_map_of(m).contains_key(k@) && v@ == metric_map_of(m)[k@],
            None => !metric_map_of(m).contains_key(k@),
        },
{
    m.get(k).map(|entry| entry.value().clone())
}

/// Relies on `dashmap::DashMap::len`: the number of bindings.
#[verifier::external_body]
fn dm_metrics_len(m: &dashmap::DashMap<String, MetricValue>) -> (r: usize)
    ensures
        r == metric_map_of(m).dom().len(),
{
    m.len()
}

/// Relies on `dashmap::DashMap::iter`: every binding the map holds, in an
/// unspecified order, copied out through the library's own `Clone`.
#[verifier::external_body]
fn dm_metrics_entries(m: &dashmap::DashMap<String, MetricValue>) -> (r: Vec<(String, MetricValue)>)
    ensures
        r@.len() == metric_map_of(m).dom().len(),
        forall|i: int|
            0 <= i < r@.len() ==> metric_map_of(m).contains_pair(
                (#[trigger] r@[i]).0@,
                r@[i].1@,
            ),
        forall|k: Seq<char>|
            metric_map_of(m).contains_key(k) ==> exists|i: int|
                0 <= i < r@.len() && (#[trigger] r@[i]).0@ == k,
{
    m.iter().map(|entry| (entry.key().clone(), entry.value().clone())).collect()
}

/// What one counter increment leaves under a key: the previous counter value
/// (zero when the key is unbound or bound to a non-counter) plus the delta,
/// saturating at the largest representable value.
pub open spec fn spec_counter_after(
    m: Map<Seq<char>, MetricValueV>,
    key: Seq<char>,
    delta: u64,
) -> u64 {
    let base: u64 = if m.contains_key(key) {
        match m[key] {
            MetricValueV::Counter(c) => c,
            _ => 0u64,
        }
    } else {
        0u64
    };
    if base + delta <= u64::MAX {
        (base + delta) as u64
    } else {
        u64::MAX
    }
}

/// What one histogram observation leaves under a key: the observation
/// appended to the previous list (a fresh one-element list when the key is
/// unbound or bound to a non-histogram).
pub open spec fn spec_histogram_after(
    m: Map<Seq<char>, MetricValueV>,
    key: Seq<char>,
    value_bits: u64,
) -> Seq<u64> {
    if m.contains_key(key) {
        match m[key] {
            MetricValueV::Histogram(h) => h.push(value_bits),
            _ => seq![value_bits],
        }
    } else {
        seq![value_bits]
    }
}

/// Concurrent map of metric name to typed sample.
///
/// Backed by `dashmap::DashMap`, so updates to different metrics do not block
/// each other.  No cross-metric atomicity is provided or required.
#[derive(Debug)]
pub struct MetricStore {
    inner: dashmap::DashMap<String, MetricValue>,
}

impl View for MetricStore {
    type V = Map<Seq<char>, MetricValueV>;

    closed spec fn view(&self) -> Map<Seq<char>, MetricValueV> {
        metric_map_of(&self.inner)
    }
}

impl MetricStore {
    /// An empty store.
    pub fn new() -> (r: Self)
        ensures
            r@ == Map::<Seq<char>, MetricValueV>::empty(),
    {
        let r = MetricStore { inner: dm_metrics_new() };
        proof {
            assert(r@ =~= Map::<Seq<char>, MetricValueV>::empty());
        }
        r
    }

    /// Binds `name` to `value`, replacing any earlier sample.
    pub fn set(&mut self, name: &str, value: MetricValue)
        ensures
            final(self)@ == old(self)@.insert(name@, value@),
    {
        dm_metrics_insert(&mut self.inner, name.to_owned(), value);
    }

    /// The sample bound to `name`, if any.
    pub fn get(&self, name: &str) -> (r: Option<MetricValue>)
        ensures
            match r {
                Some(v) => self@.contains_key(name@) && v@ == self@[name@],
                None => !self@.contains_key(name@),
            },
    {
        dm_metrics_get(&self.inner, name)
    }

    /// Number of tracked metrics.
    pub fn len(&self) -> (r: usize)
        ensures
            r == self@.dom().len(),
    {
        dm_metrics_len(&self.inner)
    }

    /// Adds `delta` to the counter under `name`.  A missing or non-counter
    /// sample counts as zero; the counter saturates at the largest
    /// representable value rather than wrap.
    pub fn increment(&mut self, name: &str, delta: u64)
        ensures
            final(self)@ == old(self)@.insert(
                name@,
                MetricValueV::Counter(spec_counter_after(old(self)@, name@, delta)),
            ),
    {
        let base: u64 = match dm_metrics_get(&self.inner, name) {
            Some(MetricValue::Counter(c)) => c,
            Some(_) => 0,
            None => 0,
        };
        let updated: u64 = if u64::MAX - delta < base {
            u64::MAX
        } else {
            base + delta
        };
        dm_metrics_insert(&mut self.inner, name.to_owned(), MetricValue::Counter(updated));
    }

    /// Replaces the gauge under `name` with the latest reading (raw bits).
    pub fn set_gauge(&mut self, name: &str, value_bits: u64)
        ensures
            final(self)@ == old(self)@.insert(name@, MetricValueV::Gauge(value_bits)),
    {
        dm_metrics_insert(&mut self.inner, name.to_owned(), MetricValue::Gauge(value_bits));
    }

    /// Appends one observation (raw bits) to the histogram under `name`.  A
    /// missing or non-histogram sample is replaced with a fresh one-element
    /// histogram.
    pub fn observe(&mut self, name: &str, value_bits: u64)
        ensures
            final(self)@ == old(self)@.insert(
                name@,
                MetricValueV::Histogram(spec_histogram_after(old(self)@, name@, value_bits)),
            ),
    {
        let updated: Vec<u64> = match dm_metrics_get(&self.inner, name) {
            Some(MetricValue::Histogram(mut h)) => {
                h.push(value_bits);
                h
            },
            Some(_) => {
                let mut h: Vec<u64> = Vec::new();
                h.push(value_bits);
                h
            },
            None => {
                let mut h: Vec<u64> = Vec::new();
                h.push(value_bits);
                h
            },
        };
        dm_metrics_insert(&mut self.inner, name.to_owned(), MetricValue::Histogram(updated));
    }

    /// Point-in-time copy of every metric, in an unspecified order.
    pub fn snapshot(&self) -> (r: Vec<(String, MetricValue)>)
        ensures
            r@.len() == self@.dom().len(),
            forall|i: int|
                0 <= i < r@.len() ==> self@.contains_pair((#[trigger] r@[i]).0@, r@[i].1@),
            forall|k: Seq<char>|
                self@.contains_key(k) ==> exists|i: int|
                    0 <= i < r@.len() && (#[trigger] r@[i]).0@ == k,
    {
        dm_metrics_entries(&self.inner)
    }
}

} // verus!
