use vstd::prelude::*;

use crate::event::{empty_event, Event, EventBuilder, EventModel};

verus! {

/// The text of each string, in order.
pub open spec fn texts(v: Seq<String>) -> Seq<Seq<char>> {
    v.map_values(|t: String| t@)
}

/// What each event holds, in order.
pub open spec fn event_models(v: Seq<Event>) -> Seq<EventModel> {
    v.map_values(|e: Event| e@)
}

fn copy_texts(v: &Vec<String>) -> (r: Vec<String>)
    ensures
        texts(r@) == texts(v@),
{
    let mut out: Vec<String> = Vec::new();
    let mut i: usize = 0;
    while i < v.len()
        invariant
            i <= v@.len(),
            texts(out@) == texts(v@.subrange(0, i as int)),
        decreases v@.len() - i,
    {
        let ghost before = out@;
        out.push(v[i].clone());
        assert(texts(out@) =~= texts(before).push(v@[i as int]@));
        assert(texts(v@.subrange(0, i + 1)) =~= texts(v@.subrange(0, i as int)).push(
            v@[i as int]@,
        ));
        i = i + 1;
    }
    assert(v@.subrange(0, v@.len() as int) =~= v@);
    out
}

/// Turns observed metrics into events for one host, each carrying the same
/// tags, and holds them until they are drained.
pub struct RiemannObserver {
    host: String,
    tags: Vec<String>,
    events: Vec<Event>,
}

/// What an observer holds.
pub struct ObserverModel {
    pub host: Seq<char>,
    pub tags: Seq<Seq<char>>,
    pub events: Seq<EventModel>,
}

impl View for RiemannObserver {
    type V = ObserverModel;

    closed spec fn view(&self) -> ObserverModel {
        ObserverModel { host: self.host@, tags: texts(self.tags@), events: event_models(self.events@) }
    }
}

/// The event for one metric value: the service names the metric, the value
/// is the double-precision metric (as its bit pattern), and the host and tags
/// are the observer's.
pub open spec fn metric_event(o: ObserverModel, service: Seq<char>, metric_d: u64) -> EventModel {
    EventModel {
        service: Some(service),
        metric_d: Some(metric_d),
        host: Some(o.host),
        tags: o.tags,
        ..empty_event()
    }
}

/// Makes observers for one host and one set of tags.
pub struct RiemannObserverBuilder {
    host: String,
    tags: Vec<String>,
}

impl RiemannObserverBuilder {
    pub fn new(host: &str, tags: Vec<String>) -> (r: RiemannObserverBuilder)
        ensures
            r.host_text() == host@,
            r.tag_texts() == texts(tags@),
    {
        RiemannObserverBuilder { host: host.to_owned(), tags }
    }

    pub closed spec fn host_text(&self) -> Seq<char> {
        self.host@
    }

    pub closed spec fn tag_texts(&self) -> Seq<Seq<char>> {
        texts(self.tags@)
    }

    /// An observer with this host and these tags, holding no event.
    pub fn build(&self) -> (r: RiemannObserver)
        ensures
            r@ == (ObserverModel {
                host: self.host_text(),
                tags: self.tag_texts(),
                events: Seq::empty(),
            }),
    {
        let r = RiemannObserver {
            host: self.host.clone(),
            tags: copy_texts(&self.tags),
            events: Vec::new(),
        };
        assert(event_models(r.events@) =~= Seq::<EventModel>::empty());
        r
    }
}

impl RiemannObserver {
    /// The event for one metric value; see [`metric_event`].
    pub fn create_event(&self, service: &str, metric_d: u64) -> (r: Event)
        ensures
            r@ == metric_event(self@, service@, metric_d),
    {
        let mut eb = EventBuilder::new().service(service).metric_d(metric_d).host(
            self.host.as_str(),
        );
        let mut i: usize = 0;
        assert(texts(self.tags@.subrange(0, 0)) =~= Seq::<Seq<char>>::empty());
        while i < self.tags.len()
            invariant
                i <= self.tags@.len(),
                eb@ == (EventModel {
                    tags: texts(self.tags@.subrange(0, i as int)),
                    ..metric_event(self@, service@, metric_d)
                }),
            decreases self.tags@.len() - i,
        {
            eb = eb.add_tag(self.tags[i].as_str());
            assert(texts(self.tags@.subrange(0, i + 1)) =~= texts(
                self.tags@.subrange(0, i as int),
            ).push(self.tags@[i as int]@));
            i = i + 1;
        }
        assert(self.tags@.subrange(0, i as int) =~= self.tags@);
        eb.build()
    }

    /// Holds the event for one metric value until the next drain.
    pub fn record(&mut self, service: &str, metric_d: u64)
        ensures
            final(self)@ == (ObserverModel {
                events: old(self)@.events.push(metric_event(old(self)@, service@, metric_d)),
                ..old(self)@
            }),
    {
        let event = self.create_event(service, metric_d);
        let ghost before = self.events@;
        self.events.push(event);
        assert(event_models(self.events@) =~= event_models(before).push(event@));
    }

    /// Hands out the events held, oldest first, and keeps none.
    pub fn drain(&mut self) -> (r: Vec<Event>)
        ensures
            event_models(r@) == old(self)@.events,
            final(self)@ == (ObserverModel { events: Seq::empty(), ..old(self)@ }),
    {
        let mut out: Vec<Event> = Vec::new();
        std::mem::swap(&mut out, &mut self.events);
        assert(event_models(self.events@) =~= Seq::<EventModel>::empty());
        out
    }
}

/// The sum of a sequence of values.
pub open spec fn seq_sum(s: Seq<u64>) -> int
    decreases s.len(),
{
    if s.len() == 0 {
        0
    } else {
        seq_sum(s.drop_last()) + s.last()
    }
}

proof fn lemma_sum_bound(s: Seq<u64>)
    ensures
        0 <= seq_sum(s) <= s.len() * (u64::MAX as int),
    decreases s.len(),
{
    if s.len() > 0 {
        lemma_sum_bound(s.drop_last());
    }
}

/// The position of the value that stands for the given per-mille rank among
/// `n` values: `n * permille / 1000`, rounded down.
pub open spec fn rank_index(n: nat, permille: nat) -> int {
    (n * permille) as int / 1000
}

/// The values in ascending order.
pub open spec fn is_ascending(s: Seq<u64>) -> bool {
    forall|i: int, j: int| 0 <= i <= j < s.len() ==> s[i] <= s[j]
}

/// Relies on `slice::sort_unstable` of std: afterwards the values are in
/// ascending order and are the values held before, each as often.
#[verifier::external_body]
fn sort_ascending(v: &mut Vec<u64>)
    ensures
        is_ascending(final(v)@),
        final(v)@.to_multiset() == old(v)@.to_multiset(),
{
    v.sort_unstable()
}

/// The figures reported for a histogram: the smallest and the largest value,
/// the sum and count from which the mean is formed, and the values at the
/// 50th, 90th, 99th and 99.9th per-cent ranks of the values in ascending
/// order.
#[derive(Clone, Copy, Debug, PartialEq, Eq)]
pub struct HistogramSummary {
    pub min: u64,
    pub max: u64,
    pub sum: u128,
    pub count: usize,
    pub p50: u64,
    pub p90: u64,
    pub p99: u64,
    pub p999: u64,
}

fn rank_position(n: usize, permille: u32) -> (r: usize)
    requires
        n > 0,
        permille < 1000,
    ensures
        r == rank_index(n as nat, permille as nat),
        r < n,
{
    assert(n * permille <= u128::MAX) by (nonlinear_arith)
        requires
            n <= usize::MAX,
            permille < 1000,
    ;
    let scaled: u128 = n as u128 * permille as u128;
    let r = scaled / 1000;
    assert(r < n) by (nonlinear_arith)
        requires
            scaled == n * permille,
            r == scaled / 1000,
            permille < 1000,
            n > 0,
    ;
    r as usize
}

/// The figures for a histogram; `None` for a histogram with no value.
pub fn histogram_summary(values: &[u64]) -> (r: Option<HistogramSummary>)
    ensures
        r is None <==> values@.len() == 0,
        r matches Some(h) ==> {
            let n = values@.len();
            &&& h.count == n
            &&& h.sum == seq_sum(values@)
            &&& exists|s: Seq<u64>|
                #![trigger s.to_multiset()]
                {
                    &&& is_ascending(s)
                    &&& s.to_multiset() == values@.to_multiset()
                    &&& s.len() == n
                    &&& h.min == s[0]
                    &&& h.max == s[n - 1]
                    &&& h.p50 == s[rank_index(n, 500)]
                    &&& h.p90 == s[rank_index(n, 900)]
                    &&& h.p99 == s[rank_index(n, 990)]
                    &&& h.p999 == s[rank_index(n, 999)]
                }
        },
{
    let n = values.len();
    if n == 0 {
        return None;
    }
    let mut sum: u128 = 0;
    let mut i: usize = 0;
    while i < n
        invariant
            n == values@.len(),
            i <= n,
            sum == seq_sum(values@.subrange(0, i as int)),
        decreases n - i,
    {
        proof {
            lemma_sum_bound(values@.subrange(0, i as int));
            assert(values@.subrange(0, i + 1).drop_last() =~= values@.subrange(0, i as int));
            assert(i * (u64::MAX as int) + u64::MAX <= u128::MAX) by (nonlinear_arith)
                requires
                    i < n,
                    n <= usize::MAX,
            ;
        }
        sum = sum + values[i] as u128;
        i = i + 1;
    }
    assert(values@.subrange(0, n as int) =~= values@);
    let mut sorted = vstd::slice::slice_to_vec(values);
    sort_ascending(&mut sorted);
    proof {
        vstd::seq_lib::to_multiset_len(sorted@);
        vstd::seq_lib::to_multiset_len(values@);
    }
    let h = HistogramSummary {
        min: sorted[0],
        max: sorted[n - 1],
        sum,
        count: n,
        p50: sorted[rank_position(n, 500)],
        p90: sorted[rank_position(n, 900)],
        p99: sorted[rank_position(n, 990)],
        p999: sorted[rank_position(n, 999)],
    };
    assert(sorted@.to_multiset() == values@.to_multiset());
    Some(h)
}

} // verus!
