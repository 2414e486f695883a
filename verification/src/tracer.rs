//! A tracer that times named steps of some work and renders a report of
//! them, grouped by step name in ascending name order.

use vstd::prelude::*;
use crate::clock::{now, nanos_since};
use crate::order::{key_less, lemma_less_irreflexive, lemma_less_transitive, lemma_less_total, str_less};
use crate::text::{MAX_DURATION_NANOS, duration_text, decimal, format_duration, format_decimal};

verus! {

/// What a trace is: its step name, when it started, and, once it is done,
/// how long it took, as a count of nanoseconds (what `Duration::as_nanos`
/// gives).
pub struct TraceView {
    pub id: Seq<char>,
    pub started_at: std::time::Instant,
    pub duration: Option<u128>,
}

/// One timed step: made by `Tracer::trace`, finished by `Tracer::done`.
#[derive(Debug)]
pub struct Trace {
    id: String,
    started_at: std::time::Instant,
    duration: Option<u128>,
}

impl View for Trace {
    type V = TraceView;

    closed spec fn view(&self) -> TraceView {
        TraceView { id: self.id@, started_at: self.started_at, duration: self.duration }
    }
}

/// What a tracer is: its name, when it was made, the finished traces
/// grouped by step name in ascending name order (each group in the order
/// the traces were done), the least total time below which it stays
/// silent, and whether it stays silent anyway.
pub struct TracerView {
    pub id: Seq<char>,
    pub started_at: std::time::Instant,
    pub groups: Seq<(Seq<char>, Seq<TraceView>)>,
    pub at_least: Option<u128>,
    pub ignore_log: bool,
}

impl TracerView {
    /// The groups' names ascend strictly.
    pub open spec fn sorted(self) -> bool {
        forall|i: int, j: int|
            0 <= i < j < self.groups.len() ==> key_less(
                #[trigger] self.groups[i].0,
                #[trigger] self.groups[j].0,
            )
    }

    /// Sorted, no group is empty, and each trace of a group is a finished
    /// trace of the group's name whose duration fits in a `Duration`.
    pub open spec fn well_formed(self) -> bool {
        &&& self.sorted()
        &&& forall|i: int| 0 <= i < self.groups.len() ==> #[trigger] self.groups[i].1.len() > 0
        &&& forall|i: int, k: int|
            0 <= i < self.groups.len() && 0 <= k < self.groups[i].1.len() ==> {
                &&& (#[trigger] self.groups[i].1[k]).id == self.groups[i].0
                &&& self.groups[i].1[k].duration matches Some(d) && d <= MAX_DURATION_NANOS
            }
    }

    /// Some group has the name `k`.
    pub open spec fn has_key(self, k: Seq<char>) -> bool {
        exists|i: int| 0 <= i < self.groups.len() && self.groups[i].0 == k
    }

    /// Where the group named `k` stands, if there is one.
    pub open spec fn key_index(self, k: Seq<char>) -> int {
        choose|i: int| 0 <= i < self.groups.len() && self.groups[i].0 == k
    }

    /// The finished traces named `k`, in the order they were done.
    pub open spec fn traces_of(self, k: Seq<char>) -> Seq<TraceView> {
        if self.has_key(k) {
            self.groups[self.key_index(k)].1
        } else {
            Seq::empty()
        }
    }

    /// The finished traces by name.
    pub open spec fn traces(self) -> Map<Seq<char>, Seq<TraceView>> {
        Map::new(|k: Seq<char>| self.has_key(k), |k: Seq<char>| self.traces_of(k))
    }

    /// The traces after trace `t` is done, having taken `nanos` nanoseconds.
    pub open spec fn recorded(self, t: TraceView, nanos: u128) -> Map<Seq<char>, Seq<TraceView>> {
        self.traces().insert(t.id, self.traces_of(t.id).push(TraceView { duration: Some(nanos), ..t }))
    }
}

/// Times named steps of some work and renders what they took. The traces
/// are kept by name in a vector sorted by name, whose order is proved here:
/// vstd's `BTreeMap` specification states nothing of the iteration order of
/// `String` keys, which the report follows.
#[derive(Debug)]
pub struct Tracer {
    id: String,
    traces: Vec<(String, Vec<Trace>)>,
    at_least: Option<u128>,
    started_at: std::time::Instant,
    ignore_log: bool,
}

/// The view of one stored group.
pub open spec fn group_view(g: (String, Vec<Trace>)) -> (Seq<char>, Seq<TraceView>) {
    (g.0@, g.1@.map_values(|t: Trace| t@))
}

impl View for Tracer {
    type V = TracerView;

    closed spec fn view(&self) -> TracerView {
        TracerView {
            id: self.id@,
            started_at: self.started_at,
            groups: self.traces@.map_values(|g: (String, Vec<Trace>)| group_view(g)),
            at_least: self.at_least,
            ignore_log: self.ignore_log,
        }
    }
}

/// In a sorted tracer each name has one group, and `traces_of` is it.
proof fn lemma_traces_of(v: TracerView, i: int)
    requires
        v.sorted(),
        0 <= i < v.groups.len(),
    ensures
        v.has_key(v.groups[i].0),
        v.traces_of(v.groups[i].0) == v.groups[i].1,
{
    let k = v.groups[i].0;
    assert(v.has_key(k));
    let j = v.key_index(k);
    if j != i {
        lemma_less_irreflexive(k, 0);
        if i < j {
            assert(key_less(v.groups[i].0, v.groups[j].0));
        } else {
            assert(key_less(v.groups[j].0, v.groups[i].0));
        }
    }
}

/// Two sorted tracers whose groups agree but for name `k` differ in their
/// maps only there.
proof fn lemma_traces_insert(v: TracerView, w: TracerView, k: Seq<char>, l: Seq<TraceView>)
    requires
        v.sorted(),
        w.sorted(),
        w.has_key(k),
        w.traces_of(k) == l,
        forall|q: Seq<char>| q != k ==> #[trigger] w.has_key(q) == v.has_key(q),
        forall|q: Seq<char>| q != k && w.has_key(q) ==> #[trigger] w.traces_of(q) == v.traces_of(q),
    ensures
        w.traces() == v.traces().insert(k, l),
{
    assert(w.traces() =~= v.traces().insert(k, l));
}

/// Appending to the group at `p`, named `k`, records the trace there.
proof fn lemma_record_existing(v: TracerView, w: TracerView, p: int, t: TraceView)
    requires
        v.well_formed(),
        0 <= p < v.groups.len(),
        v.groups[p].0 == t.id,
        t.duration matches Some(d) && d <= MAX_DURATION_NANOS,
        w.groups == v.groups.update(p, (t.id, v.groups[p].1.push(t))),
    ensures
        w.well_formed(),
        w.traces() == v.traces().insert(t.id, v.traces_of(t.id).push(t)),
{
    let k = t.id;
    assert(w.sorted()) by {
        assert forall|i: int, j: int| 0 <= i < j < w.groups.len() implies key_less(
            #[trigger] w.groups[i].0,
            #[trigger] w.groups[j].0,
        ) by {
            assert(key_less(v.groups[i].0, v.groups[j].0));
        }
    }
    assert forall|i: int, m: int| 0 <= i < w.groups.len() && 0 <= m < w.groups[i].1.len() implies {
        &&& (#[trigger] w.groups[i].1[m]).id == w.groups[i].0
        &&& w.groups[i].1[m].duration matches Some(d) && d <= MAX_DURATION_NANOS
    } by {
        if i == p && m == v.groups[p].1.len() {
        } else {
            assert(w.groups[i].1[m] == v.groups[i].1[m]);
        }
    }
    assert(forall|i: int| 0 <= i < w.groups.len() ==> #[trigger] w.groups[i].1.len() > 0);
    lemma_traces_of(v, p);
    lemma_traces_of(w, p);
    assert forall|q: Seq<char>| q != k implies #[trigger] w.has_key(q) == v.has_key(q) by {
        if w.has_key(q) {
            let i = choose|i: int| 0 <= i < w.groups.len() && w.groups[i].0 == q;
            assert(v.groups[i].0 == q);
        }
        if v.has_key(q) {
            let i = choose|i: int| 0 <= i < v.groups.len() && v.groups[i].0 == q;
            assert(w.groups[i].0 == q);
        }
    }
    assert forall|q: Seq<char>| q != k && w.has_key(q) implies #[trigger] w.traces_of(q) == v.traces_of(q) by {
        let i = choose|i: int| 0 <= i < w.groups.len() && w.groups[i].0 == q;
        lemma_traces_of(w, i);
        lemma_traces_of(v, i);
    }
    lemma_traces_insert(v, w, k, v.traces_of(k).push(t));
}

/// A new group at `p`, between the names below and above `t.id`, records
/// the trace there.
proof fn lemma_record_new(v: TracerView, w: TracerView, p: int, t: TraceView)
    requires
        v.well_formed(),
        0 <= p <= v.groups.len(),
        forall|j: int| 0 <= j < p ==> key_less(#[trigger] v.groups[j].0, t.id),
        p < v.groups.len() ==> key_less(t.id, v.groups[p].0),
        t.duration matches Some(d) && d <= MAX_DURATION_NANOS,
        w.groups == v.groups.insert(p, (t.id, seq![t])),
    ensures
        w.well_formed(),
        w.traces() == v.traces().insert(t.id, v.traces_of(t.id).push(t)),
{
    let k = t.id;
    assert(!v.has_key(k)) by {
        if v.has_key(k) {
            let i = choose|i: int| 0 <= i < v.groups.len() && v.groups[i].0 == k;
            lemma_less_irreflexive(k, 0);
            if i < p {
                assert(key_less(v.groups[i].0, k));
            } else {
                if i > p {
                    assert(key_less(v.groups[p].0, v.groups[i].0));
                    lemma_less_transitive(k, v.groups[p].0, k, 0);
                }
            }
        }
    }
    assert(v.traces_of(k) =~= Seq::<TraceView>::empty());
    assert(seq![t] =~= v.traces_of(k).push(t));
    assert(w.sorted()) by {
        assert forall|i: int, j: int| 0 <= i < j < w.groups.len() implies key_less(
            #[trigger] w.groups[i].0,
            #[trigger] w.groups[j].0,
        ) by {
            if j < p {
                assert(key_less(v.groups[i].0, v.groups[j].0));
            } else if j == p {
            } else if i < p {
                assert(key_less(v.groups[i].0, k));
                if j - 1 > p {
                    assert(key_less(v.groups[p].0, v.groups[j - 1].0));
                    lemma_less_transitive(k, v.groups[p].0, v.groups[j - 1].0, 0);
                }
                lemma_less_transitive(v.groups[i].0, k, v.groups[j - 1].0, 0);
            } else if i == p {
                if j - 1 > p {
                    assert(key_less(v.groups[p].0, v.groups[j - 1].0));
                    lemma_less_transitive(k, v.groups[p].0, v.groups[j - 1].0, 0);
                }
            } else {
                assert(key_less(v.groups[i - 1].0, v.groups[j - 1].0));
            }
        }
    }
    assert forall|i: int, m: int| 0 <= i < w.groups.len() && 0 <= m < w.groups[i].1.len() implies {
        &&& (#[trigger] w.groups[i].1[m]).id == w.groups[i].0
        &&& w.groups[i].1[m].duration matches Some(d) && d <= MAX_DURATION_NANOS
    } by {
        if i < p {
            assert(w.groups[i] == v.groups[i]);
        } else if i > p {
            assert(w.groups[i] == v.groups[i - 1]);
        }
    }
    assert forall|i: int| 0 <= i < w.groups.len() implies #[trigger] w.groups[i].1.len() > 0 by {
        if i < p {
            assert(w.groups[i] == v.groups[i]);
        } else if i > p {
            assert(w.groups[i] == v.groups[i - 1]);
        }
    }
    lemma_traces_of(w, p);
    assert forall|q: Seq<char>| q != k implies #[trigger] w.has_key(q) == v.has_key(q) by {
        if w.has_key(q) {
            let i = choose|i: int| 0 <= i < w.groups.len() && w.groups[i].0 == q;
            if i < p {
                assert(v.groups[i].0 == q);
            } else {
                assert(v.groups[i - 1].0 == q);
            }
        }
        if v.has_key(q) {
            let i = choose|i: int| 0 <= i < v.groups.len() && v.groups[i].0 == q;
            if i < p {
                assert(w.groups[i].0 == q);
            } else {
                assert(w.groups[i + 1].0 == q);
            }
        }
    }
    assert forall|q: Seq<char>| q != k && w.has_key(q) implies #[trigger] w.traces_of(q) == v.traces_of(q) by {
        let i = choose|i: int| 0 <= i < w.groups.len() && w.groups[i].0 == q;
        lemma_traces_of(w, i);
        if i < p {
            lemma_traces_of(v, i);
        } else {
            lemma_traces_of(v, i - 1);
        }
    }
    lemma_traces_insert(v, w, k, v.traces_of(k).push(t));
}

/// Two sorted tracers with the same names hold them in the same order.
proof fn lemma_same_keys_same_order(v: TracerView, w: TracerView)
    requires
        v.sorted(),
        w.sorted(),
        forall|k: Seq<char>| #[trigger] v.has_key(k) == w.has_key(k),
    ensures
        v.groups.len() == w.groups.len(),
        forall|i: int| 0 <= i < v.groups.len() ==> #[trigger] v.groups[i].0 == w.groups[i].0,
    decreases v.groups.len(),
{
    if v.groups.len() == 0 || w.groups.len() == 0 {
        if w.groups.len() > 0 {
            assert(w.has_key(w.groups[0].0));
            assert(v.has_key(w.groups[0].0));
        }
        if v.groups.len() > 0 {
            assert(v.has_key(v.groups[0].0));
            assert(w.has_key(v.groups[0].0));
        }
    } else {
        let a = v.groups[0].0;
        let b = w.groups[0].0;
        assert(v.has_key(a));
        assert(w.has_key(b));
        if a != b {
            assert(v.has_key(b) == w.has_key(b));
            assert(v.has_key(a) == w.has_key(a));
            let j = choose|j: int| 0 <= j < w.groups.len() && w.groups[j].0 == a;
            let i = choose|i: int| 0 <= i < v.groups.len() && v.groups[i].0 == b;
            assert(key_less(b, a));
            assert(key_less(a, b));
            lemma_less_transitive(a, b, a, 0);
            lemma_less_irreflexive(a, 0);
        }
        let v1 = TracerView { groups: v.groups.drop_first(), ..v };
        let w1 = TracerView { groups: w.groups.drop_first(), ..w };
        assert(v1.sorted()) by {
            assert forall|i: int, j: int| 0 <= i < j < v1.groups.len() implies key_less(
                #[trigger] v1.groups[i].0,
                #[trigger] v1.groups[j].0,
            ) by {
                assert(key_less(v.groups[i + 1].0, v.groups[j + 1].0));
            }
        }
        assert(w1.sorted()) by {
            assert forall|i: int, j: int| 0 <= i < j < w1.groups.len() implies key_less(
                #[trigger] w1.groups[i].0,
                #[trigger] w1.groups[j].0,
            ) by {
                assert(key_less(w.groups[i + 1].0, w.groups[j + 1].0));
            }
        }
        assert forall|k: Seq<char>| #[trigger] v1.has_key(k) == w1.has_key(k) by {
            lemma_less_irreflexive(a, 0);
            if v1.has_key(k) {
                let i = choose|i: int| 0 <= i < v1.groups.len() && v1.groups[i].0 == k;
                assert(v.groups[i + 1].0 == k);
                assert(key_less(v.groups[0].0, v.groups[i + 1].0));
                assert(v.has_key(k));
                assert(w.has_key(k));
                let j = choose|j: int| 0 <= j < w.groups.len() && w.groups[j].0 == k;
                if j == 0 {
                    assert(k == a);
                }
                assert(w1.groups[j - 1].0 == k);
            }
            if w1.has_key(k) {
                let j = choose|j: int| 0 <= j < w1.groups.len() && w1.groups[j].0 == k;
                assert(w.groups[j + 1].0 == k);
                assert(key_less(w.groups[0].0, w.groups[j + 1].0));
                assert(w.has_key(k));
                assert(v.has_key(k));
                let i = choose|i: int| 0 <= i < v.groups.len() && v.groups[i].0 == k;
                if i == 0 {
                    assert(k == a);
                }
                assert(v1.groups[i - 1].0 == k);
            }
        }
        lemma_same_keys_same_order(v1, w1);
        assert forall|i: int| 0 <= i < v.groups.len() implies #[trigger] v.groups[i].0 == w.groups[i].0 by {
            if i > 0 {
                assert(v1.groups[i - 1].0 == w1.groups[i - 1].0);
            }
        }
    }
}

/// The groups of a well-formed tracer are fixed by its traces: two tracers
/// that recorded the same traces by name hold (and report) them alike.
pub proof fn law_groups_follow_traces(v: TracerView, w: TracerView)
    requires
        v.well_formed(),
        w.well_formed(),
        v.traces() == w.traces(),
    ensures
        v.groups == w.groups,
{
    assert forall|k: Seq<char>| #[trigger] v.has_key(k) == w.has_key(k) by {
        assert(v.traces().dom().contains(k) == v.has_key(k));
        assert(w.traces().dom().contains(k) == w.has_key(k));
    }
    lemma_same_keys_same_order(v, w);
    assert forall|i: int| 0 <= i < v.groups.len() implies #[trigger] v.groups[i] == w.groups[i] by {
        let k = v.groups[i].0;
        lemma_traces_of(v, i);
        lemma_traces_of(w, i);
        assert(v.traces()[k] == v.traces_of(k));
        assert(w.traces()[k] == w.traces_of(k));
    }
    assert(v.groups =~= w.groups);
}

/// Recording trace `t` adds it, with its duration, to the traces of its
/// name, after the others, and changes no other name.
pub proof fn law_record_adds_one(v: TracerView, t: TraceView, nanos: u128)
    ensures
        v.recorded(t, nanos)[t.id].len() == v.traces_of(t.id).len() + 1,
        v.recorded(t, nanos)[t.id].last() == (TraceView { duration: Some(nanos), ..t }),
        forall|q: Seq<char>| q != t.id ==> #[trigger] v.recorded(t, nanos).dom().contains(q) == v.traces().dom().contains(q),
        forall|q: Seq<char>| q != t.id && v.traces().dom().contains(q) ==> #[trigger] v.recorded(t, nanos)[q] == v.traces()[q],
{
}

/// The report line of one finished trace.
pub open spec fn trace_line(t: TraceView) -> Seq<char> {
    "\t\t > "@ + t.id + " > "@ + duration_text(t.duration.unwrap() as nat) + "\n"@
}

/// The report lines of finished traces, in order.
pub open spec fn traces_text(ts: Seq<TraceView>) -> Seq<char>
    decreases ts.len(),
{
    if ts.len() == 0 {
        Seq::empty()
    } else {
        traces_text(ts.drop_last()) + trace_line(ts.last())
    }
}

/// The report of one group: its name and count, then its traces.
pub open spec fn group_text(g: (Seq<char>, Seq<TraceView>)) -> Seq<char> {
    "\t > Trace > "@ + g.0 + " > called "@ + decimal(g.1.len()) + " times\n"@ + traces_text(g.1)
}

/// The report of the groups, in order.
pub open spec fn groups_text(gs: Seq<(Seq<char>, Seq<TraceView>)>) -> Seq<char>
    decreases gs.len(),
{
    if gs.len() == 0 {
        Seq::empty()
    } else {
        groups_text(gs.drop_last()) + group_text(gs.last())
    }
}

/// The report of a tracer `elapsed` nanoseconds after it was made.
pub open spec fn report_text(v: TracerView, elapsed: u128) -> Seq<char> {
    "Tracer > "@ + v.id + " -> total: "@ + duration_text(elapsed as nat) + "\n"@ + groups_text(v.groups)
}

/// A print `elapsed` nanoseconds after the tracer was made yields nothing:
/// the tracer is silenced, or less time passed than it asks for.
pub open spec fn print_suppressed(v: TracerView, elapsed: u128) -> bool {
    v.ignore_log || (v.at_least matches Some(least) && elapsed < least)
}

/// The tracer after a print: one that was not silenced yet and is printed
/// with `mark` becomes silenced.
pub open spec fn after_print(v: TracerView, mark: bool) -> TracerView {
    if !v.ignore_log && mark {
        TracerView { ignore_log: true, ..v }
    } else {
        v
    }
}

/// A print with `mark` silences the tracer: every later print yields
/// nothing and changes nothing.
pub proof fn law_marked_print_silences(v: TracerView, later_mark: bool, elapsed: u128)
    ensures
        after_print(v, true).ignore_log,
        print_suppressed(after_print(v, true), elapsed),
        after_print(after_print(v, true), later_mark) == after_print(v, true),
{
}

/// A silenced tracer's print yields nothing and changes nothing.
pub proof fn law_silenced_print_is_inert(v: TracerView, mark: bool, elapsed: u128)
    requires
        v.ignore_log,
    ensures
        print_suppressed(v, elapsed),
        after_print(v, mark) == v,
{
}

/// A print without `mark` changes nothing.
pub proof fn law_unmarked_print_changes_nothing(v: TracerView)
    ensures
        after_print(v, false) == v,
{
}

/// A new tracer named `id`, with no traces, no least time and not silenced,
/// whose clock starts now.
pub fn new(id: String) -> (tracer: Tracer)
    ensures
        tracer@.id == id@,
        tracer@.groups == Seq::<(Seq<char>, Seq<TraceView>)>::empty(),
        tracer@.at_least is None,
        !tracer@.ignore_log,
        tracer@.well_formed(),
{
    let tracer = Tracer {
        id,
        traces: Vec::new(),
        at_least: None,
        started_at: now(),
        ignore_log: false,
    };
    proof {
        assert(tracer@.groups =~= Seq::empty());
    }
    tracer
}

impl Tracer {
    #[verifier::type_invariant]
    spec fn inv(self) -> bool {
        self@.well_formed()
    }

    /// The same tracer, silenced or not as `ignore` says.
    pub fn ignore(self, ignore: bool) -> (tracer: Tracer)
        ensures
            tracer@ == (TracerView { ignore_log: ignore, ..self@ }),
            tracer@.well_formed(),
    {
        proof {
            use_type_invariant(&self);
        }
        let mut tracer = self;
        tracer.ignore_log = ignore;
        tracer
    }

    /// The same tracer, silent until at least `duration_nanos` nanoseconds
    /// passed since it was made. The least time is a count of nanoseconds
    /// (what `Duration::as_nanos` gives), as are all durations here.
    pub fn at_least_duration(self, duration_nanos: u128) -> (tracer: Tracer)
        ensures
            tracer@ == (TracerView { at_least: Some(duration_nanos), ..self@ }),
            tracer@.well_formed(),
    {
        proof {
            use_type_invariant(&self);
        }
        let mut tracer = self;
        tracer.at_least = Some(duration_nanos);
        tracer
    }

    /// Starts timing a step named `id`, now.
    pub fn trace(&self, id: String) -> (trace: Trace)
        ensures
            trace@.id == id@,
            trace@.duration is None,
    {
        Trace { id, started_at: now(), duration: None }
    }

    /// Finishes `trace` now: it joins the traces of its name, after those
    /// done before it; nothing else changes.
    pub fn done(&mut self, trace: Trace)
        ensures
            final(self)@.well_formed(),
            final(self)@.id == old(self)@.id,
            final(self)@.at_least == old(self)@.at_least,
            final(self)@.ignore_log == old(self)@.ignore_log,
            final(self)@.started_at == old(self)@.started_at,
            exists|nanos: u128|
                nanos <= MAX_DURATION_NANOS && final(self)@.traces() == old(self)@.recorded(trace@, nanos),
    {
        let nanos = nanos_since(&trace.started_at);
        self.record(trace, nanos);
    }

    /// Finishes `trace` as having taken `nanos` nanoseconds: it joins the
    /// traces of its name, after those done before it; nothing else changes.
    pub fn record(&mut self, trace: Trace, nanos: u128)
        requires
            nanos <= MAX_DURATION_NANOS,
        ensures
            final(self)@.well_formed(),
            final(self)@.id == old(self)@.id,
            final(self)@.at_least == old(self)@.at_least,
            final(self)@.ignore_log == old(self)@.ignore_log,
            final(self)@.started_at == old(self)@.started_at,
            final(self)@.traces() == old(self)@.recorded(trace@, nanos),
    {
        proof {
            use_type_invariant(&*self);
        }
        let ghost v = self@;
        let mut trace = trace;
        trace.duration = Some(nanos);
        let ghost t = trace@;
        let mut groups: Vec<(String, Vec<Trace>)> = Vec::new();
        std::mem::swap(&mut groups, &mut self.traces);
        assert(groups@.map_values(|g: (String, Vec<Trace>)| group_view(g)) == v.groups);
        let n = groups.len();
        let mut p: usize = 0;
        while p < n
            invariant
                n == groups.len(),
                trace@ == t,
                groups@.map_values(|g: (String, Vec<Trace>)| group_view(g)) == v.groups,
                p <= n,
                forall|j: int| 0 <= j < p ==> key_less(#[trigger] v.groups[j].0, t.id),
            ensures
                p <= n,
                forall|j: int| 0 <= j < p ==> key_less(#[trigger] v.groups[j].0, t.id),
                p < n ==> !key_less(v.groups[p as int].0, t.id),
            decreases n - p,
        {
            proof {
                assert(group_view(groups@[p as int]) == v.groups[p as int]);
            }
            if !str_less(groups[p].0.as_str(), trace.id.as_str()) {
                break;
            }
            p = p + 1;
        }
        if p < n && groups[p].0 == trace.id {
            let (key, mut list) = groups.remove(p);
            proof {
                assert(list@.map_values(|x: Trace| x@) == v.groups[p as int].1);
            }
            list.push(trace);
            proof {
                assert(list@.map_values(|x: Trace| x@) =~= v.groups[p as int].1.push(t));
            }
            groups.insert(p, (key, list));
            proof {
                let w = TracerView { groups: groups@.map_values(|g: (String, Vec<Trace>)| group_view(g)), ..v };
                assert(w.groups =~= v.groups.update(p as int, (t.id, v.groups[p as int].1.push(t))));
                lemma_record_existing(v, w, p as int, t);
            }
        } else {
            proof {
                if p < n {
                    assert(group_view(groups@[p as int]) == v.groups[p as int]);
                    assert(groups[p as int].0@ == v.groups[p as int].0);
                    lemma_less_total(v.groups[p as int].0, t.id);
                }
            }
            let key = trace.id.clone();
            let mut list: Vec<Trace> = Vec::new();
            list.push(trace);
            proof {
                assert(list@.map_values(|x: Trace| x@) =~= seq![t]);
            }
            groups.insert(p, (key, list));
            proof {
                let w = TracerView { groups: groups@.map_values(|g: (String, Vec<Trace>)| group_view(g)), ..v };
                assert(w.groups =~= v.groups.insert(p as int, (t.id, seq![t])));
                lemma_record_new(v, w, p as int, t);
            }
        }
        self.traces = groups;
    }

    /// Renders the report as it stands `elapsed` nanoseconds after the
    /// tracer was made, unless the tracer is silenced or less time passed
    /// than it asks for. With `mark`, a tracer not yet silenced becomes
    /// silenced, whether or not it yields a report.
    pub fn print_at(&mut self, mark: bool, elapsed: u128) -> (report: Option<String>)
        requires
            elapsed <= MAX_DURATION_NANOS,
        ensures
            old(self)@.well_formed(),
            final(self)@.well_formed(),
            final(self)@ == after_print(old(self)@, mark),
            old(self)@.ignore_log ==> report is None && final(self)@ == old(self)@,
            !old(self)@.ignore_log ==> final(self)@ == (TracerView { ignore_log: mark, ..old(self)@ }),
            !old(self)@.ignore_log && old(self)@.at_least is None ==> report is Some,
            !old(self)@.ignore_log ==> (old(self)@.at_least matches Some(least) ==> (report is None <==> elapsed < least)),
            report is None <==> print_suppressed(old(self)@, elapsed),
            report matches Some(r) ==> r@ == report_text(old(self)@, elapsed),
    {
        proof {
            use_type_invariant(&*self);
        }
        if self.ignore_log {
            return None;
        }
        if mark {
            self.ignore_log = true;
        }
        if let Some(least) = self.at_least {
            if elapsed < least {
                return None;
            }
        }
        let ghost v = self@;
        let mut out = String::new();
        out.append("Tracer > ");
        out.append(self.id.as_str());
        out.append(" -> total: ");
        let total = format_duration(elapsed);
        out.append(total.as_str());
        out.append("\n");
        let ghost head = out@;
        let n = self.traces.len();
        let mut i: usize = 0;
        while i < n
            invariant
                v == self@,
                v.well_formed(),
                n == self.traces@.len(),
                n == v.groups.len(),
                i <= n,
                out@ == head + groups_text(v.groups.take(i as int)),
            decreases n - i,
        {
            let group = &self.traces[i];
            let ghost g = v.groups[i as int];
            proof {
                assert(g == group_view(self.traces@[i as int]));
            }
            out.append("\t > Trace > ");
            out.append(group.0.as_str());
            out.append(" > called ");
            let count = format_decimal(group.1.len());
            out.append(count.as_str());
            out.append(" times\n");
            let ghost mid = out@;
            let m = group.1.len();
            let mut k: usize = 0;
            while k < m
                invariant
                    v.well_formed(),
                    0 <= i < v.groups.len(),
                    g == v.groups[i as int],
                    g == group_view(*group),
                    m == group.1@.len(),
                    k <= m,
                    out@ == mid + traces_text(g.1.take(k as int)),
                decreases m - k,
            {
                let t = &group.1[k];
                proof {
                    assert(g.1[k as int] == t@);
                    assert(g.1[k as int].duration matches Some(d) && d <= MAX_DURATION_NANOS);
                }
                out.append("\t\t > ");
                out.append(t.id.as_str());
                out.append(" > ");
                let took = format_duration(t.duration.unwrap());
                out.append(took.as_str());
                out.append("\n");
                proof {
                    assert(g.1.take(k + 1).drop_last() =~= g.1.take(k as int));
                    assert(g.1.take(k + 1).last() == t@);
                }
                k = k + 1;
            }
            proof {
                assert(g.1.take(m as int) =~= g.1);
                assert(v.groups.take(i + 1).drop_last() =~= v.groups.take(i as int));
                assert(v.groups.take(i + 1).last() == g);
            }
            i = i + 1;
        }
        proof {
            assert(v.groups.take(n as int) =~= v.groups);
        }
        Some(out)
    }

    /// Renders the report as it stands now, unless the tracer is silenced
    /// or less time passed than it asks for. With `mark`, a tracer not yet
    /// silenced becomes silenced, whether or not it yields a report.
    pub fn print(&mut self, mark: bool) -> (report: Option<String>)
        ensures
            old(self)@.well_formed(),
            final(self)@.well_formed(),
            final(self)@ == after_print(old(self)@, mark),
            old(self)@.ignore_log ==> report is None,
            exists|elapsed: u128|
                {
                    &&& elapsed <= MAX_DURATION_NANOS
                    &&& (report is None <==> print_suppressed(old(self)@, elapsed))
                    &&& (report matches Some(r) ==> r@ == report_text(old(self)@, elapsed))
                },
    {
        proof {
            use_type_invariant(&*self);
        }
        if self.ignore_log {
            assert(print_suppressed(self@, 0));
            return None;
        }
        let elapsed = nanos_since(&self.started_at);
        self.print_at(mark, elapsed)
    }
}

} // verus!
