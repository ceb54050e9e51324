use std::collections::HashMap;
use vstd::prelude::*;

use crate::text::str_eq;

verus! {

broadcast use vstd::std_specs::hash::group_hash_axioms;

/// One event of a Chrome trace, with the fields that the analysis reads.
pub struct TraceEvent {
    /// Event name, such as `RunTask`.
    pub name: String,
    /// Phase; complete events (with a duration) have `X`.
    pub ph: String,
    /// Duration in microseconds, rounded up to a whole number.
    pub dur: Option<i64>,
    /// Thread id.
    pub tid: u64,
    /// Process id.
    pub pid: u64,
    /// Category list, as written in the trace.
    pub cat: Option<String>,
}

/// The events of one trace file.
pub struct TraceFile {
    pub trace_events: Vec<TraceEvent>,
}

/// Least duration, in microseconds, above which a task marks the main thread.
pub const MAIN_THREAD_MIN_DUR_US: i64 = 500_000;

/// A complete `RunTask` event: one task of a thread's event loop.
pub open spec fn spec_is_run_task(e: TraceEvent) -> bool {
    e.name@ == "RunTask"@ && e.ph@ == "X"@
}

/// A `RunTask` that lasted more than half a second.
pub open spec fn spec_is_long_run_task(e: TraceEvent) -> bool {
    spec_is_run_task(e) && match e.dur {
        Some(d) => d > MAIN_THREAD_MIN_DUR_US,
        None => false,
    }
}

/// Number of `RunTask` events of thread `tid`.
pub open spec fn spec_run_task_count(events: Seq<TraceEvent>, tid: u64) -> nat
    decreases events.len(),
{
    if events.len() == 0 {
        0
    } else {
        spec_run_task_count(events.drop_last(), tid) + if spec_is_run_task(events.last())
            && events.last().tid == tid {
            1nat
        } else {
            0nat
        }
    }
}

/// The main thread as the trace shows it: the thread of the first `RunTask`
/// longer than half a second; failing that, a thread with the most `RunTask`
/// events; failing that, 0.
pub open spec fn spec_is_main_thread(events: Seq<TraceEvent>, tid: u64) -> bool {
    if exists|i: int| 0 <= i < events.len() && spec_is_long_run_task(#[trigger] events[i]) {
        exists|i: int|
            0 <= i < events.len() && spec_is_long_run_task(#[trigger] events[i]) && (forall|j: int|
                0 <= j < i ==> !spec_is_long_run_task(#[trigger] events[j])) && events[i].tid
                == tid
    } else if exists|i: int| 0 <= i < events.len() && spec_is_run_task(#[trigger] events[i]) {
        spec_run_task_count(events, tid) > 0 && forall|t: u64|
            spec_run_task_count(events, t) <= spec_run_task_count(events, tid)
    } else {
        tid == 0
    }
}

fn is_run_task(e: &TraceEvent) -> (r: bool)
    ensures
        r == spec_is_run_task(*e),
{
    str_eq(e.name.as_str(), "RunTask") && str_eq(e.ph.as_str(), "X")
}

fn is_long_run_task(e: &TraceEvent) -> (r: bool)
    ensures
        r == spec_is_long_run_task(*e),
{
    if is_run_task(e) {
        match e.dur {
            Some(d) => d > MAIN_THREAD_MIN_DUR_US,
            None => false,
        }
    } else {
        false
    }
}

proof fn lemma_count_step(events: Seq<TraceEvent>, i: int, tid: u64)
    requires
        0 <= i < events.len(),
    ensures
        spec_run_task_count(events.take(i + 1), tid) == spec_run_task_count(events.take(i), tid)
            + if spec_is_run_task(events[i]) && events[i].tid == tid {
            1nat
        } else {
            0nat
        },
{
    assert(events.take(i + 1).drop_last() =~= events.take(i));
}

proof fn lemma_count_le_len(events: Seq<TraceEvent>, tid: u64)
    ensures
        spec_run_task_count(events, tid) <= events.len(),
    decreases events.len(),
{
    if events.len() > 0 {
        lemma_count_le_len(events.drop_last(), tid);
    }
}

proof fn lemma_count_positive(events: Seq<TraceEvent>, i: int)
    requires
        0 <= i < events.len(),
        spec_is_run_task(events[i]),
    ensures
        spec_run_task_count(events, events[i].tid) > 0,
    decreases events.len(),
{
    if i < events.len() - 1 {
        lemma_count_positive(events.drop_last(), i);
    }
}

/// Finds the main thread of a trace: the thread of the first `RunTask`
/// longer than half a second, or else a thread with the most `RunTask`
/// events (which one, among equals, is left open), or else 0.
pub fn detect_main_thread(events: &[TraceEvent]) -> (tid: u64)
    ensures
        spec_is_main_thread(events@, tid),
{
    let n = events.len();
    let mut i: usize = 0;
    while i < n
        invariant
            n == events@.len(),
            0 <= i <= n,
            forall|j: int| 0 <= j < i ==> !spec_is_long_run_task(#[trigger] events@[j]),
        decreases n - i,
    {
        if is_long_run_task(&events[i]) {
            let tid = events[i].tid;
            assert(spec_is_long_run_task(events@[i as int]));
            return tid;
        }
        i = i + 1;
    }
    let ghost evs = events@;
    // Fallback: the thread with the most RunTask events.
    let mut counts: HashMap<u64, usize> = HashMap::new();
    let mut order: Vec<u64> = Vec::new();
    let mut k: usize = 0;
    while k < n
        invariant
            n == evs.len(),
            evs == events@,
            0 <= k <= n,
            forall|t: u64|
                #![trigger counts@.contains_key(t)]
                counts@.contains_key(t) <==> spec_run_task_count(evs.take(k as int), t) > 0,
            forall|t: u64|
                #![trigger counts@[t]]
                counts@.contains_key(t) ==> counts@[t] as nat == spec_run_task_count(
                    evs.take(k as int),
                    t,
                ),
            forall|t: u64| counts@.contains_key(t) <==> #[trigger] order@.contains(t),
            forall|j: int| 0 <= j < n ==> !spec_is_long_run_task(#[trigger] evs[j]),
        decreases n - k,
    {
        let e = &events[k];
        proof {
            assert forall|t: u64| true implies #[trigger] spec_run_task_count(
                evs.take(k + 1),
                t,
            ) == spec_run_task_count(evs.take(k as int), t) + if spec_is_run_task(evs[k as int])
                && evs[k as int].tid == t {
                1nat
            } else {
                0nat
            } by {
                lemma_count_step(evs, k as int, t);
            }
            lemma_count_le_len(evs.take(k as int), e.tid);
        }
        if is_run_task(e) {
            let tid = e.tid;
            let cur: usize = match counts.get(&tid) {
                Some(c) => *c,
                None => {
                    let ghost old_order = order@;
                    order.push(tid);
                    proof {
                        assert forall|t: u64| #[trigger] order@.contains(t) <==> (
                        old_order.contains(t) || t == tid) by {
                            if order@.contains(t) && t != tid {
                                let j = choose|j: int| 0 <= j < order@.len() && order@[j] == t;
                                assert(old_order[j] == t);
                            }
                            if old_order.contains(t) {
                                let j = choose|j: int| 0 <= j < old_order.len() && old_order[j] == t;
                                assert(order@[j] == t);
                            }
                            if t == tid {
                                assert(order@[order@.len() - 1] == tid);
                            }
                        }
                    }
                    0
                },
            };
            counts.insert(tid, cur + 1);
        }
        k = k + 1;
    }
    assert(evs.take(n as int) =~= evs);
    let mut best_tid: u64 = 0;
    let mut best: usize = 0;
    let mut m: usize = 0;
    while m < order.len()
        invariant
            evs == events@,
            n == evs.len(),
            forall|t: u64|
                #![trigger counts@.contains_key(t)]
                counts@.contains_key(t) <==> spec_run_task_count(evs, t) > 0,
            forall|t: u64|
                #![trigger counts@[t]]
                counts@.contains_key(t) ==> counts@[t] as nat == spec_run_task_count(evs, t),
            forall|t: u64| counts@.contains_key(t) <==> #[trigger] order@.contains(t),
            0 <= m <= order.len(),
            forall|j: int| 0 <= j < m ==> counts@.contains_key(#[trigger] order@[j]) && counts@[order@[j]] <= best,
            forall|j: int| 0 <= j < n ==> !spec_is_long_run_task(#[trigger] evs[j]),
            m > 0 ==> counts@.contains_key(best_tid) && counts@[best_tid] == best,
            m > 0 ==> best > 0,
            m == 0 ==> best_tid == 0,
        decreases order.len() - m,
    {
        let t = order[m];
        assert(order@.contains(t));
        assert(order@[m as int] == t);
        let c: usize = match counts.get(&t) {
            Some(c) => *c,
            None => 0,
        };
        if m == 0 || c > best {
            best = c;
            best_tid = t;
        }
        m = m + 1;
    }
    proof {
        assert(!(exists|i: int| 0 <= i < evs.len() && spec_is_long_run_task(#[trigger] evs[i])));
        if exists|i: int| 0 <= i < evs.len() && spec_is_run_task(#[trigger] evs[i]) {
            let i = choose|i: int| 0 <= i < evs.len() && spec_is_run_task(#[trigger] evs[i]);
            lemma_count_positive(evs, i);
            assert(counts@.contains_key(evs[i].tid));
            assert(order@.contains(evs[i].tid));
            assert(m > 0);
            assert(counts@.contains_key(best_tid));
            assert(spec_run_task_count(evs, best_tid) > 0);
            assert forall|t: u64| spec_run_task_count(evs, t) <= spec_run_task_count(evs, best_tid) by {
                if spec_run_task_count(evs, t) > 0 {
                    assert(counts@.contains_key(t));
                    assert(order@.contains(t));
                    let j = choose|j: int| 0 <= j < order@.len() && order@[j] == t;
                    assert(counts@[order@[j]] <= best);
                }
            }
            assert(spec_is_main_thread(evs, best_tid));
        } else {
            if m > 0 {
                assert(order@.contains(order@[0]));
                let t0 = order@[0];
                assert(spec_run_task_count(evs, t0) > 0);
                lemma_count_has_run_task(evs, t0);
                assert(false);
            }
            assert(spec_is_main_thread(evs, best_tid));
        }
    }
    best_tid
}

proof fn lemma_count_has_run_task(events: Seq<TraceEvent>, tid: u64)
    requires
        spec_run_task_count(events, tid) > 0,
    ensures
        exists|i: int| 0 <= i < events.len() && spec_is_run_task(#[trigger] events[i]),
    decreases events.len(),
{
    if spec_is_run_task(events.last()) && events.last().tid == tid {
        assert(spec_is_run_task(events[events.len() - 1]));
    } else {
        lemma_count_has_run_task(events.drop_last(), tid);
        let i = choose|i: int|
            0 <= i < events.drop_last().len() && spec_is_run_task(#[trigger] events.drop_last()[i]);
        assert(events[i] == events.drop_last()[i]);
    }
}

} // verus!
