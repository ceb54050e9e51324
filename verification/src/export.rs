use vstd::prelude::*;

use crate::analysis::{spec_source_label, Finding, FindingSeverity, SourceType};
use crate::text::{lemma_starts_with_after, push_decimal, spec_contains, spec_decimal, spec_starts_with, str_eq};
use crate::ui::{display_name, shorten_url, spec_display_name, spec_shorten_url};

verus! {

/// One row of the per-event statistics table.
pub struct EventStatRow {
    pub name: String,
    /// Total time spent in events of this kind.
    pub total: String,
    pub count: usize,
    /// Average time per event.
    pub avg: String,
    /// Share of the trace, in percent.
    pub pct: String,
}

/// The whole-trace statistics. Times and percentages come already written
/// out; counts are written here.
pub struct SummaryReport {
    /// Length of the trace.
    pub duration: String,
    /// Share of the trace during which the main thread was busy, in percent.
    pub busy_pct: String,
    /// Time the main thread was busy.
    pub busy: String,
    /// Number of tasks longer than 50 ms.
    pub long_task_count: usize,
    /// Durations of the longest tasks, longest first.
    pub long_tasks_top: Vec<String>,
    /// Per-event statistics, largest total first.
    pub event_stats: Vec<EventStatRow>,
}

/// The views of a list of strings.
pub open spec fn views(v: Seq<String>) -> Seq<Seq<char>> {
    v.map_values(|s: String| s@)
}

/// The items joined with `sep` between each two.
pub open spec fn spec_join(items: Seq<Seq<char>>, sep: Seq<char>) -> Seq<char>
    decreases items.len(),
{
    if items.len() == 0 {
        Seq::empty()
    } else if items.len() == 1 {
        items[0]
    } else {
        spec_join(items.drop_last(), sep) + sep + items.last()
    }
}

/// At most the first `n` items.
pub open spec fn spec_first<A>(s: Seq<A>, n: int) -> Seq<A> {
    if s.len() <= n {
        s
    } else {
        s.take(n)
    }
}

pub open spec fn spec_overview(summary: SummaryReport, name: Seq<char>) -> Seq<char> {
    let top = views(summary.long_tasks_top@);
    "## Overview\n\n"@ + "- **Trace**: "@ + name + "\n"@ + "- **Duration**: "@ + summary.duration@
        + "\n"@ + "- **Main Thread Busy**: "@ + summary.busy_pct@ + "% ("@ + summary.busy@ + ")\n"@
        + "- **Long Tasks (>50ms)**: "@ + spec_decimal(summary.long_task_count as nat) + "\n"@ + (
    if top.len() == 0 {
        Seq::empty()
    } else {
        "- **Top Long Tasks**: "@ + spec_join(spec_first(top, 5), ", "@) + "\n"@
    }) + "\n"@
}

/// Appends the first `n` items of `items`, joined with `sep`.
#[verifier::spinoff_prover]
fn push_join(out: &mut String, items: &Vec<String>, n: usize, sep: &str)
    ensures
        final(out)@ == old(out)@ + spec_join(spec_first(views(items@), n as int), sep@),
{
    let count = if items.len() < n { items.len() } else { n };
    let ghost all = views(items@);
    let mut i: usize = 0;
    while i < count
        invariant
            count <= items.len(),
            count == spec_first(all, n as int).len(),
            all == views(items@),
            0 <= i <= count,
            out@ == old(out)@ + spec_join(all.take(i as int), sep@),
        decreases count - i,
    {
        proof {
            let t = all.take(i + 1);
            assert(t.drop_last() =~= all.take(i as int));
            assert(t.last() == items@[i as int]@);
            if i == 0 {
                assert(all.take(0) =~= Seq::<Seq<char>>::empty());
            }
        }
        if i > 0 {
            out.append(sep);
        }
        out.append(items[i].as_str());
        i = i + 1;
    }
    proof {
        assert(all.take(count as int) =~= spec_first(all, n as int));
    }
}

/// Appends the overview section: trace name, duration, main-thread load and
/// long tasks, listing at most five of them.
#[verifier::spinoff_prover]
pub fn export_overview(out: &mut String, summary: &SummaryReport, name: &str)
    ensures
        final(out)@ == old(out)@ + spec_overview(*summary, name@),
{
    out.append("## Overview\n\n");
    out.append("- **Trace**: ");
    out.append(name);
    out.append("\n");
    out.append("- **Duration**: ");
    out.append(summary.duration.as_str());
    out.append("\n");
    out.append("- **Main Thread Busy**: ");
    out.append(summary.busy_pct.as_str());
    out.append("% (");
    out.append(summary.busy.as_str());
    out.append(")\n");
    out.append("- **Long Tasks (>50ms)**: ");
    push_decimal(out, summary.long_task_count);
    out.append("\n");
    if summary.long_tasks_top.len() > 0 {
        out.append("- **Top Long Tasks**: ");
        push_join(out, &summary.long_tasks_top, 5, ", ");
        out.append("\n");
    }
    out.append("\n");
    proof {
        let top = views(summary.long_tasks_top@);
        assert(top.len() == summary.long_tasks_top@.len());
        assert(out@ =~= old(out)@ + spec_overview(*summary, name@));
    }
}


/// The rows of a table, each written by `f` with its number (from 1).
pub open spec fn spec_numbered<R>(rows: Seq<R>, f: spec_fn(R, nat) -> Seq<char>) -> Seq<char>
    decreases rows.len(),
{
    if rows.len() == 0 {
        Seq::empty()
    } else {
        spec_numbered(rows.drop_last(), f) + f(rows.last(), rows.len())
    }
}

proof fn lemma_numbered_step<R>(rows: Seq<R>, f: spec_fn(R, nat) -> Seq<char>, i: int)
    requires
        0 <= i < rows.len(),
    ensures
        spec_numbered(rows.take(i + 1), f) == spec_numbered(rows.take(i), f) + f(
            rows[i],
            (i + 1) as nat,
        ),
{
    assert(rows.take(i + 1).drop_last() =~= rows.take(i));
    assert(rows.take(i + 1).last() == rows[i]);
}

proof fn lemma_first_is_take<R>(rows: Seq<R>, n: int, count: int)
    requires
        n >= 0,
        count == if rows.len() <= n { rows.len() as int } else { n },
    ensures
        rows.take(count) == spec_first(rows, n),
{
    assert(rows.take(count) =~= spec_first(rows, n));
}

/// One line of the event statistics table.
pub open spec fn spec_event_stat_row(r: EventStatRow) -> Seq<char> {
    "| "@ + r.name@ + " | "@ + r.total@ + " | "@ + spec_decimal(r.count as nat) + " | "@ + r.avg@
        + " | "@ + r.pct@ + "% |\n"@
}

pub open spec fn event_stat_row_fn() -> spec_fn(EventStatRow, nat) -> Seq<char> {
    |r: EventStatRow, i: nat| spec_event_stat_row(r)
}

pub open spec fn spec_event_breakdown(summary: SummaryReport) -> Seq<char> {
    "## Event Breakdown\n\n"@ + "| Event | Total | Count | Avg | % of Trace |\n"@
        + "|-------|-------|-------|-----|------------|\n"@ + spec_numbered(
        summary.event_stats@,
        event_stat_row_fn(),
    ) + "\n"@
}

/// Appends the table of all event kinds with their total, count, average
/// and share of the trace.
#[verifier::spinoff_prover]
pub fn export_event_breakdown(out: &mut String, summary: &SummaryReport)
    ensures
        final(out)@ == old(out)@ + spec_event_breakdown(*summary),
{
    out.append("## Event Breakdown\n\n");
    out.append("| Event | Total | Count | Avg | % of Trace |\n");
    out.append("|-------|-------|-------|-----|------------|\n");
    let ghost base = out@;
    let rows = &summary.event_stats;
    let mut i: usize = 0;
    while i < rows.len()
        invariant
            0 <= i <= rows.len(),
            out@ == base + spec_numbered(rows@.take(i as int), event_stat_row_fn()),
        decreases rows.len() - i,
    {
        proof {
            lemma_numbered_step(rows@, event_stat_row_fn(), i as int);
        }
        let line = event_stat_row(&rows[i]);
        out.append(line.as_str());
        i = i + 1;
    }
    out.append("\n");
    proof {
        assert(rows@.take(rows.len() as int) =~= rows@);
    }
}

/// One row of the style-recalculation table.
pub struct StyleRecalcRow {
    pub dur: String,
    pub element_count: usize,
}

/// Style recalculations (`UpdateLayoutTree`) with the elements they touched,
/// most elements first.
pub struct StyleRecalcReport {
    pub total_count: usize,
    pub avg_elements: String,
    pub max_elements: usize,
    pub entries: Vec<StyleRecalcRow>,
}

pub open spec fn spec_style_recalc_row(r: StyleRecalcRow, i: nat) -> Seq<char> {
    "| "@ + spec_decimal(i) + " | "@ + r.dur@ + " | "@ + spec_decimal(r.element_count as nat)
        + " |\n"@
}

pub open spec fn style_recalc_row_fn() -> spec_fn(StyleRecalcRow, nat) -> Seq<char> {
    |r: StyleRecalcRow, i: nat| spec_style_recalc_row(r, i)
}

pub open spec fn spec_style_recalc(sr: StyleRecalcReport) -> Seq<char> {
    if sr.entries@.len() == 0 {
        Seq::empty()
    } else {
        "## Style Recalc (UpdateLayoutTree)\n\n"@ + "- **Events**: "@ + spec_decimal(
            sr.total_count as nat,
        ) + "\n"@ + "- **Avg Elements**: "@ + sr.avg_elements@ + "\n"@ + "- **Max Elements**: "@
            + spec_decimal(sr.max_elements as nat) + "\n\n"@ + "| # | Duration | Elements |\n"@
            + "|---|----------|----------|\n"@ + spec_numbered(
            spec_first(sr.entries@, 10),
            style_recalc_row_fn(),
        ) + "\n"@
    }
}

/// Appends the style-recalculation section (nothing when there is no data),
/// listing at most ten events.
#[verifier::spinoff_prover]
pub fn export_style_recalc(out: &mut String, sr: &StyleRecalcReport)
    ensures
        final(out)@ == old(out)@ + spec_style_recalc(*sr),
{
    if sr.entries.len() == 0 {
        proof {
            assert(old(out)@ + spec_style_recalc(*sr) =~= old(out)@);
        }
        return;
    }
    let mut sec = String::new();
    sec.append("## Style Recalc (UpdateLayoutTree)\n\n");
    sec.append("- **Events**: ");
    push_decimal(&mut sec, sr.total_count);
    sec.append("\n");
    sec.append("- **Avg Elements**: ");
    sec.append(sr.avg_elements.as_str());
    sec.append("\n");
    sec.append("- **Max Elements**: ");
    push_decimal(&mut sec, sr.max_elements);
    sec.append("\n\n");
    sec.append("| # | Duration | Elements |\n");
    sec.append("|---|----------|----------|\n");
    let ghost base = sec@;
    let rows = &sr.entries;
    let count = if rows.len() < 10 { rows.len() } else { 10 };
    let mut i: usize = 0;
    while i < count
        invariant
            count <= rows.len(),
            0 <= i <= count,
            sec@ == base + spec_numbered(rows@.take(i as int), style_recalc_row_fn()),
        decreases count - i,
    {
        proof {
            lemma_numbered_step(rows@, style_recalc_row_fn(), i as int);
        }
        let line = style_recalc_row(&rows[i], i + 1);
        sec.append(line.as_str());
        i = i + 1;
    }
    sec.append("\n");
    proof {
        lemma_first_is_take(rows@, 10, count as int);
        assert(sec@ =~= spec_style_recalc(*sr));
    }
    out.append(sec.as_str());
}

/// One task with forced synchronous layouts.
pub struct ForcedReflowRow {
    pub task_dur: String,
    pub reflow_count: usize,
    pub layout_time: String,
}

/// Tasks that forced layout repeatedly (layout thrashing), worst first.
pub struct ForcedReflowReport {
    pub total_reflows: usize,
    pub total_layout_time: String,
    pub entries: Vec<ForcedReflowRow>,
}

pub open spec fn spec_forced_reflow_row(r: ForcedReflowRow, i: nat) -> Seq<char> {
    "| "@ + spec_decimal(i) + " | "@ + r.task_dur@ + " | "@ + spec_decimal(r.reflow_count as nat)
        + " | "@ + r.layout_time@ + " |\n"@
}

pub open spec fn forced_reflow_row_fn() -> spec_fn(ForcedReflowRow, nat) -> Seq<char> {
    |r: ForcedReflowRow, i: nat| spec_forced_reflow_row(r, i)
}

pub open spec fn spec_forced_reflows(fr: ForcedReflowReport) -> Seq<char> {
    if fr.entries@.len() == 0 {
        Seq::empty()
    } else {
        "## Forced Reflow (Layout Thrashing)\n\n"@ + "- **Tasks with thrashing**: "@ + spec_decimal(
            fr.entries@.len(),
        ) + "\n"@ + "- **Total reflows**: "@ + spec_decimal(fr.total_reflows as nat) + "\n"@
            + "- **Total layout time**: "@ + fr.total_layout_time@ + "\n\n"@
            + "| # | Task Duration | Reflows | Layout Time |\n"@
            + "|---|---------------|---------|-------------|\n"@ + spec_numbered(
            spec_first(fr.entries@, 10),
            forced_reflow_row_fn(),
        ) + "\n"@
    }
}

/// Appends the forced-reflow section (nothing when no task thrashed),
/// listing at most ten tasks.
#[verifier::spinoff_prover]
pub fn export_forced_reflows(out: &mut String, fr: &ForcedReflowReport)
    ensures
        final(out)@ == old(out)@ + spec_forced_reflows(*fr),
{
    if fr.entries.len() == 0 {
        proof {
            assert(old(out)@ + spec_forced_reflows(*fr) =~= old(out)@);
        }
        return;
    }
    let mut sec = String::new();
    sec.append("## Forced Reflow (Layout Thrashing)\n\n");
    sec.append("- **Tasks with thrashing**: ");
    let n = fr.entries.len();
    assert(n as nat == fr.entries@.len());
    push_decimal(&mut sec, n);
    sec.append("\n");
    sec.append("- **Total reflows**: ");
    push_decimal(&mut sec, fr.total_reflows);
    sec.append("\n");
    sec.append("- **Total layout time**: ");
    sec.append(fr.total_layout_time.as_str());
    sec.append("\n\n");
    sec.append("| # | Task Duration | Reflows | Layout Time |\n");
    sec.append("|---|---------------|---------|-------------|\n");
    let ghost base = sec@;
    let rows = &fr.entries;
    let count = if rows.len() < 10 { rows.len() } else { 10 };
    let mut i: usize = 0;
    while i < count
        invariant
            count <= rows.len(),
            0 <= i <= count,
            sec@ == base + spec_numbered(rows@.take(i as int), forced_reflow_row_fn()),
        decreases count - i,
    {
        proof {
            lemma_numbered_step(rows@, forced_reflow_row_fn(), i as int);
        }
        let line = forced_reflow_row(&rows[i], i + 1);
        sec.append(line.as_str());
        i = i + 1;
    }
    sec.append("\n");
    proof {
        lemma_first_is_take(rows@, 10, count as int);
        assert(sec@ =~= spec_forced_reflows(*fr));
    }
    out.append(sec.as_str());
}


/// One layout event with its dirty-object counts.
pub struct LayoutDirtyRow {
    pub dur: String,
    pub dirty_count: usize,
    pub total_count: usize,
    /// Dirty objects as a share of all, in percent.
    pub ratio: String,
}

/// Layout events that report how many objects needed layout, most dirty
/// objects first.
pub struct LayoutDirtyReport {
    pub avg_dirty: String,
    pub max_dirty: usize,
    pub avg_ratio: String,
    pub entries: Vec<LayoutDirtyRow>,
}

pub open spec fn spec_layout_dirty_row(r: LayoutDirtyRow, i: nat) -> Seq<char> {
    "| "@ + spec_decimal(i) + " | "@ + r.dur@ + " | "@ + spec_decimal(r.dirty_count as nat) + " | "@
        + spec_decimal(r.total_count as nat) + " | "@ + r.ratio@ + "% |\n"@
}

pub open spec fn layout_dirty_row_fn() -> spec_fn(LayoutDirtyRow, nat) -> Seq<char> {
    |r: LayoutDirtyRow, i: nat| spec_layout_dirty_row(r, i)
}

pub open spec fn spec_layout_dirty(ld: LayoutDirtyReport) -> Seq<char> {
    "## Layout Dirty Objects\n\n"@ + if ld.entries@.len() == 0 {
        "No Layout events with dirty object data found.\n\n"@
    } else {
        "- **Layout Events**: "@ + spec_decimal(ld.entries@.len()) + "\n"@
            + "- **Avg Dirty Objects**: "@ + ld.avg_dirty@ + "\n"@ + "- **Max Dirty Objects**: "@
            + spec_decimal(ld.max_dirty as nat) + "\n"@ + "- **Avg Dirty Ratio**: "@
            + ld.avg_ratio@ + "%\n\n"@ + "### Top 10 Layout Events (by dirty count)\n\n"@
            + "| # | Duration | Dirty | Total | Ratio |\n"@
            + "|---|----------|-------|-------|-------|\n"@ + spec_numbered(
            spec_first(ld.entries@, 10),
            layout_dirty_row_fn(),
        ) + "\n"@
    }
}

/// Appends the layout dirty-object section, listing at most ten events.
#[verifier::spinoff_prover]
pub fn export_layout_dirty(out: &mut String, ld: &LayoutDirtyReport)
    ensures
        final(out)@ == old(out)@ + spec_layout_dirty(*ld),
{
    out.append("## Layout Dirty Objects\n\n");
    if ld.entries.len() == 0 {
        out.append("No Layout events with dirty object data found.\n\n");
        proof {
            assert(out@ =~= old(out)@ + spec_layout_dirty(*ld));
        }
        return;
    }
    let mut sec = String::new();
    sec.append("- **Layout Events**: ");
    let n = ld.entries.len();
    assert(n as nat == ld.entries@.len());
    push_decimal(&mut sec, n);
    sec.append("\n");
    sec.append("- **Avg Dirty Objects**: ");
    sec.append(ld.avg_dirty.as_str());
    sec.append("\n");
    sec.append("- **Max Dirty Objects**: ");
    push_decimal(&mut sec, ld.max_dirty);
    sec.append("\n");
    sec.append("- **Avg Dirty Ratio**: ");
    sec.append(ld.avg_ratio.as_str());
    sec.append("%\n\n");
    sec.append("### Top 10 Layout Events (by dirty count)\n\n");
    sec.append("| # | Duration | Dirty | Total | Ratio |\n");
    sec.append("|---|----------|-------|-------|-------|\n");
    let ghost base = sec@;
    let rows = &ld.entries;
    let count = if rows.len() < 10 { rows.len() } else { 10 };
    let mut i: usize = 0;
    while i < count
        invariant
            count <= rows.len(),
            0 <= i <= count,
            sec@ == base + spec_numbered(rows@.take(i as int), layout_dirty_row_fn()),
        decreases count - i,
    {
        proof {
            lemma_numbered_step(rows@, layout_dirty_row_fn(), i as int);
        }
        let line = layout_dirty_row(&rows[i], i + 1);
        sec.append(line.as_str());
        i = i + 1;
    }
    sec.append("\n");
    proof {
        lemma_first_is_take(rows@, 10, count as int);
        assert(sec@ =~= Seq::<char>::empty() + "- **Layout Events**: "@ + spec_decimal(ld.entries@.len()) + "\n"@
            + "- **Avg Dirty Objects**: "@ + ld.avg_dirty@ + "\n"@ + "- **Max Dirty Objects**: "@
            + spec_decimal(ld.max_dirty as nat) + "\n"@ + "- **Avg Dirty Ratio**: "@
            + ld.avg_ratio@ + "%\n\n"@ + "### Top 10 Layout Events (by dirty count)\n\n"@
            + "| # | Duration | Dirty | Total | Ratio |\n"@
            + "|---|----------|-------|-------|-------|\n"@ + spec_numbered(
            spec_first(ld.entries@, 10),
            layout_dirty_row_fn(),
        ) + "\n"@);
    }
    out.append(sec.as_str());
    proof {
        assert(out@ =~= old(out)@ + spec_layout_dirty(*ld));
    }
}

/// Time of one cost category and its share, in percent.
pub struct TimeShare {
    pub time: String,
    pub pct: String,
}

/// One scroll task (a `RunTask` with long style or script work) and where
/// its time went.
pub struct ScrollTaskRow {
    pub dur: String,
    /// The category that took most of the task.
    pub bottleneck: String,
    pub js: String,
    pub style: String,
    pub layout: String,
    pub paint: String,
}

/// Scroll tasks, worst first, with the average task and its breakdown.
pub struct ScrollFramesReport {
    pub avg_dur: String,
    pub p50: String,
    pub p90: String,
    pub p99: String,
    /// The category that took most of the average task.
    pub bottleneck: String,
    pub js: TimeShare,
    pub style: TimeShare,
    pub layout: TimeShare,
    pub paint: TimeShare,
    pub composite: TimeShare,
    pub hit_test: TimeShare,
    pub tasks: Vec<ScrollTaskRow>,
}

pub open spec fn spec_share_row(name: Seq<char>, c: TimeShare) -> Seq<char> {
    "| "@ + name + " | "@ + c.time@ + " | "@ + c.pct@ + "% |\n"@
}

pub open spec fn spec_scroll_task_row(r: ScrollTaskRow, i: nat) -> Seq<char> {
    "| "@ + spec_decimal(i) + " | "@ + r.dur@ + " | "@ + r.bottleneck@ + " | "@ + r.js@ + " | "@
        + r.style@ + " | "@ + r.layout@ + " | "@ + r.paint@ + " |\n"@
}

pub open spec fn scroll_task_row_fn() -> spec_fn(ScrollTaskRow, nat) -> Seq<char> {
    |r: ScrollTaskRow, i: nat| spec_scroll_task_row(r, i)
}

pub open spec fn spec_scroll_stats(sf: ScrollFramesReport) -> Seq<char> {
    "- **Scroll Tasks**: "@ + spec_decimal(sf.tasks@.len()) + "\n"@ + "- **Avg Duration**: "@
        + sf.avg_dur@ + "\n"@ + "- **P50**: "@ + sf.p50@ + " / **P90**: "@ + sf.p90@
        + " / **P99**: "@ + sf.p99@ + "\n"@ + "- **Bottleneck**: "@ + sf.bottleneck@ + "\n"@
        + "\n"@
}

pub open spec fn spec_scroll_breakdown(sf: ScrollFramesReport) -> Seq<char> {
    "### Average Breakdown (per task)\n\n"@ + "| Category | Time | % of Task |\n"@
        + "|----------|------|-----------|\n"@ + spec_share_row("JS (FunctionCall)"@, sf.js)
        + spec_share_row("Style (UpdateLayoutTree)"@, sf.style) + spec_share_row(
        "Layout"@,
        sf.layout,
    ) + spec_share_row("Paint"@, sf.paint) + spec_share_row(
        "Composite (Layerize+Commit)"@,
        sf.composite,
    ) + spec_share_row("HitTest"@, sf.hit_test) + "\n"@
}

pub open spec fn spec_scroll_worst(sf: ScrollFramesReport) -> Seq<char> {
    "### Worst Scroll Tasks\n\n"@ + "| # | Duration | Bottleneck | JS | Style | Layout | Paint |\n"@
        + "|---|----------|------------|-------|-------|--------|-------|\n"@ + spec_numbered(
        spec_first(sf.tasks@, 10),
        scroll_task_row_fn(),
    ) + "\n"@
}

pub open spec fn spec_scroll_frames(sf: ScrollFramesReport) -> Seq<char> {
    "## Scroll Frame Analysis\n\n"@ + if sf.tasks@.len() == 0 {
        "No scroll tasks detected (RunTask containing ULT>50ms or FunctionCall>50ms).\n\n"@
    } else {
        spec_scroll_stats(sf) + spec_scroll_breakdown(sf) + spec_scroll_worst(sf)
    }
}

fn push_share_row(out: &mut String, name: &str, c: &TimeShare)
    ensures
        final(out)@ == old(out)@ + spec_share_row(name@, *c),
{
    out.append("| ");
    out.append(name);
    out.append(" | ");
    out.append(c.time.as_str());
    out.append(" | ");
    out.append(c.pct.as_str());
    out.append("% |\n");
    proof {
        assert(out@ =~= old(out)@ + spec_share_row(name@, *c));
    }
}

fn scroll_stats(sf: &ScrollFramesReport) -> (s: String)
    ensures
        s@ == spec_scroll_stats(*sf),
{
    let mut s = String::new();
    s.append("- **Scroll Tasks**: ");
    let n = sf.tasks.len();
    assert(n as nat == sf.tasks@.len());
    push_decimal(&mut s, n);
    s.append("\n");
    s.append("- **Avg Duration**: ");
    s.append(sf.avg_dur.as_str());
    s.append("\n");
    s.append("- **P50**: ");
    s.append(sf.p50.as_str());
    s.append(" / **P90**: ");
    s.append(sf.p90.as_str());
    s.append(" / **P99**: ");
    s.append(sf.p99.as_str());
    s.append("\n");
    s.append("- **Bottleneck**: ");
    s.append(sf.bottleneck.as_str());
    s.append("\n");
    s.append("\n");
    proof {
        assert(s@ =~= spec_scroll_stats(*sf));
    }
    s
}

fn scroll_breakdown(sf: &ScrollFramesReport) -> (s: String)
    ensures
        s@ == spec_scroll_breakdown(*sf),
{
    let mut s = String::new();
    s.append("### Average Breakdown (per task)\n\n");
    s.append("| Category | Time | % of Task |\n");
    s.append("|----------|------|-----------|\n");
    push_share_row(&mut s, "JS (FunctionCall)", &sf.js);
    push_share_row(&mut s, "Style (UpdateLayoutTree)", &sf.style);
    push_share_row(&mut s, "Layout", &sf.layout);
    push_share_row(&mut s, "Paint", &sf.paint);
    push_share_row(&mut s, "Composite (Layerize+Commit)", &sf.composite);
    push_share_row(&mut s, "HitTest", &sf.hit_test);
    s.append("\n");
    proof {
        assert(s@ =~= spec_scroll_breakdown(*sf));
    }
    s
}

#[verifier::spinoff_prover]
fn scroll_worst(sf: &ScrollFramesReport) -> (s: String)
    ensures
        s@ == spec_scroll_worst(*sf),
{
    let mut s = String::new();
    s.append("### Worst Scroll Tasks\n\n");
    s.append("| # | Duration | Bottleneck | JS | Style | Layout | Paint |\n");
    s.append("|---|----------|------------|-------|-------|--------|-------|\n");
    let ghost base = s@;
    let rows = &sf.tasks;
    let count = if rows.len() < 10 { rows.len() } else { 10 };
    let mut i: usize = 0;
    while i < count
        invariant
            count <= rows.len(),
            0 <= i <= count,
            s@ == base + spec_numbered(rows@.take(i as int), scroll_task_row_fn()),
        decreases count - i,
    {
        proof {
            lemma_numbered_step(rows@, scroll_task_row_fn(), i as int);
        }
        let line = scroll_task_row(&rows[i], i + 1);
        s.append(line.as_str());
        i = i + 1;
    }
    s.append("\n");
    proof {
        lemma_first_is_take(rows@, 10, count as int);
        assert(s@ =~= spec_scroll_worst(*sf));
    }
    s
}

/// Appends the scroll-frame section: count, average and percentiles, the
/// average breakdown by category, and at most ten worst tasks.
#[verifier::spinoff_prover]
pub fn export_scroll_frames(out: &mut String, sf: &ScrollFramesReport)
    ensures
        final(out)@ == old(out)@ + spec_scroll_frames(*sf),
{
    out.append("## Scroll Frame Analysis\n\n");
    if sf.tasks.len() == 0 {
        out.append("No scroll tasks detected (RunTask containing ULT>50ms or FunctionCall>50ms).\n\n");
        proof {
            assert(out@ =~= old(out)@ + spec_scroll_frames(*sf));
        }
        return;
    }
    let a = scroll_stats(sf);
    let b = scroll_breakdown(sf);
    let c = scroll_worst(sf);
    out.append(a.as_str());
    out.append(b.as_str());
    out.append(c.as_str());
    proof {
        assert(out@ =~= old(out)@ + spec_scroll_frames(*sf));
    }
}


fn event_stat_row(r: &EventStatRow) -> (s: String)
    ensures
        s@ == spec_event_stat_row(*r),
{
    let mut s = String::new();
    s.append("| ");
    s.append(r.name.as_str());
    s.append(" | ");
    s.append(r.total.as_str());
    s.append(" | ");
    push_decimal(&mut s, r.count);
    s.append(" | ");
    s.append(r.avg.as_str());
    s.append(" | ");
    s.append(r.pct.as_str());
    s.append("% |\n");
    proof {
        assert(s@ =~= spec_event_stat_row(*r));
    }
    s
}

fn style_recalc_row(r: &StyleRecalcRow, i: usize) -> (s: String)
    ensures
        s@ == spec_style_recalc_row(*r, i as nat),
{
    let mut s = String::new();
    s.append("| ");
    push_decimal(&mut s, i);
    s.append(" | ");
    s.append(r.dur.as_str());
    s.append(" | ");
    push_decimal(&mut s, r.element_count);
    s.append(" |\n");
    proof {
        assert(s@ =~= spec_style_recalc_row(*r, i as nat));
    }
    s
}

fn forced_reflow_row(r: &ForcedReflowRow, i: usize) -> (s: String)
    ensures
        s@ == spec_forced_reflow_row(*r, i as nat),
{
    let mut s = String::new();
    s.append("| ");
    push_decimal(&mut s, i);
    s.append(" | ");
    s.append(r.task_dur.as_str());
    s.append(" | ");
    push_decimal(&mut s, r.reflow_count);
    s.append(" | ");
    s.append(r.layout_time.as_str());
    s.append(" |\n");
    proof {
        assert(s@ =~= spec_forced_reflow_row(*r, i as nat));
    }
    s
}

fn layout_dirty_row(r: &LayoutDirtyRow, i: usize) -> (s: String)
    ensures
        s@ == spec_layout_dirty_row(*r, i as nat),
{
    let mut s = String::new();
    s.append("| ");
    push_decimal(&mut s, i);
    s.append(" | ");
    s.append(r.dur.as_str());
    s.append(" | ");
    push_decimal(&mut s, r.dirty_count);
    s.append(" | ");
    push_decimal(&mut s, r.total_count);
    s.append(" | ");
    s.append(r.ratio.as_str());
    s.append("% |\n");
    proof {
        assert(s@ =~= spec_layout_dirty_row(*r, i as nat));
    }
    s
}

fn scroll_task_row(r: &ScrollTaskRow, i: usize) -> (s: String)
    ensures
        s@ == spec_scroll_task_row(*r, i as nat),
{
    let mut s = String::new();
    s.append("| ");
    push_decimal(&mut s, i);
    s.append(" | ");
    s.append(r.dur.as_str());
    s.append(" | ");
    s.append(r.bottleneck.as_str());
    s.append(" | ");
    s.append(r.js.as_str());
    s.append(" | ");
    s.append(r.style.as_str());
    s.append(" | ");
    s.append(r.layout.as_str());
    s.append(" | ");
    s.append(r.paint.as_str());
    s.append(" |\n");
    proof {
        assert(s@ =~= spec_scroll_task_row(*r, i as nat));
    }
    s
}


/// One profiled function, by self time.
pub struct CpuFunctionRow {
    pub source_type: SourceType,
    pub function_name: String,
    /// Script URL the function comes from.
    pub url: String,
    pub self_time: String,
    /// Share of all sampled time, in percent.
    pub pct: String,
    /// Running total of the shares down to this row, in percent.
    pub cum_pct: String,
}

/// The sampled CPU profile: totals by source and functions by self time,
/// largest first.
pub struct CpuProfileReport {
    pub total: String,
    pub app: TimeShare,
    pub runtime: TimeShare,
    pub native: TimeShare,
    pub functions: Vec<CpuFunctionRow>,
}

pub open spec fn spec_cpu_function_row(r: CpuFunctionRow, i: nat) -> Seq<char> {
    "| "@ + spec_decimal(i) + " | "@ + spec_source_label(r.source_type) + " | "@
        + spec_display_name(r.function_name@) + " | "@ + r.self_time@ + " | "@ + r.pct@ + "% | "@
        + r.cum_pct@ + "% | "@ + spec_shorten_url(r.url@) + " |\n"@
}

pub open spec fn cpu_function_row_fn() -> spec_fn(CpuFunctionRow, nat) -> Seq<char> {
    |r: CpuFunctionRow, i: nat| spec_cpu_function_row(r, i)
}

pub open spec fn spec_cpu_totals(cp: CpuProfileReport) -> Seq<char> {
    "- **Total Sample Time**: "@ + cp.total@ + "\n"@ + "- **App Code**: "@ + cp.app.time@ + " ("@
        + cp.app.pct@ + "%)\n"@ + "- **Runtime/Library**: "@ + cp.runtime.time@ + " ("@
        + cp.runtime.pct@ + "%)\n"@ + "- **Native/Browser**: "@ + cp.native.time@ + " ("@
        + cp.native.pct@ + "%)\n\n"@
}

pub open spec fn spec_cpu_table(cp: CpuProfileReport) -> Seq<char> {
    "| # | Source | Function | Self Time | % | Cumulative % | File |\n"@
        + "|---|--------|----------|-----------|---|-------------|------|\n"@ + spec_numbered(
        spec_first(cp.functions@, 30),
        cpu_function_row_fn(),
    ) + "\n"@
}

pub open spec fn spec_cpu_profile(cp: CpuProfileReport) -> Seq<char> {
    "## CPU Profile (Top Functions by Self-Time)\n\n"@ + if cp.functions@.len() == 0 {
        "No CPU profile data found (ProfileChunk events).\n\n"@
    } else {
        spec_cpu_totals(cp) + spec_cpu_table(cp)
    }
}

fn cpu_function_row(r: &CpuFunctionRow, i: usize) -> (s: String)
    ensures
        s@ == spec_cpu_function_row(*r, i as nat),
{
    let mut s = String::new();
    s.append("| ");
    push_decimal(&mut s, i);
    s.append(" | ");
    s.append(r.source_type.label());
    s.append(" | ");
    s.append(display_name(r.function_name.as_str()));
    s.append(" | ");
    s.append(r.self_time.as_str());
    s.append(" | ");
    s.append(r.pct.as_str());
    s.append("% | ");
    s.append(r.cum_pct.as_str());
    s.append("% | ");
    let short = shorten_url(r.url.as_str());
    s.append(short.as_str());
    s.append(" |\n");
    proof {
        assert(s@ =~= spec_cpu_function_row(*r, i as nat));
    }
    s
}

fn cpu_totals(cp: &CpuProfileReport) -> (s: String)
    ensures
        s@ == spec_cpu_totals(*cp),
{
    let mut s = String::new();
    s.append("- **Total Sample Time**: ");
    s.append(cp.total.as_str());
    s.append("\n");
    s.append("- **App Code**: ");
    s.append(cp.app.time.as_str());
    s.append(" (");
    s.append(cp.app.pct.as_str());
    s.append("%)\n");
    s.append("- **Runtime/Library**: ");
    s.append(cp.runtime.time.as_str());
    s.append(" (");
    s.append(cp.runtime.pct.as_str());
    s.append("%)\n");
    s.append("- **Native/Browser**: ");
    s.append(cp.native.time.as_str());
    s.append(" (");
    s.append(cp.native.pct.as_str());
    s.append("%)\n\n");
    proof {
        assert(s@ =~= spec_cpu_totals(*cp));
    }
    s
}

#[verifier::spinoff_prover]
fn cpu_table(cp: &CpuProfileReport) -> (s: String)
    ensures
        s@ == spec_cpu_table(*cp),
{
    let mut s = String::new();
    s.append("| # | Source | Function | Self Time | % | Cumulative % | File |\n");
    s.append("|---|--------|----------|-----------|---|-------------|------|\n");
    let ghost base = s@;
    let rows = &cp.functions;
    let count = if rows.len() < 30 { rows.len() } else { 30 };
    let mut i: usize = 0;
    while i < count
        invariant
            count <= rows.len(),
            0 <= i <= count,
            s@ == base + spec_numbered(rows@.take(i as int), cpu_function_row_fn()),
        decreases count - i,
    {
        proof {
            lemma_numbered_step(rows@, cpu_function_row_fn(), i as int);
        }
        let line = cpu_function_row(&rows[i], i + 1);
        s.append(line.as_str());
        i = i + 1;
    }
    s.append("\n");
    proof {
        lemma_first_is_take(rows@, 30, count as int);
        assert(s@ =~= spec_cpu_table(*cp));
    }
    s
}

/// Appends the CPU-profile section: sampled time by source, and at most
/// thirty functions by self time.
#[verifier::spinoff_prover]
pub fn export_cpu_profile(out: &mut String, cp: &CpuProfileReport)
    ensures
        final(out)@ == old(out)@ + spec_cpu_profile(*cp),
{
    out.append("## CPU Profile (Top Functions by Self-Time)\n\n");
    if cp.functions.len() == 0 {
        out.append("No CPU profile data found (ProfileChunk events).\n\n");
        proof {
            assert(out@ =~= old(out)@ + spec_cpu_profile(*cp));
        }
        return;
    }
    let a = cpu_totals(cp);
    let b = cpu_table(cp);
    out.append(a.as_str());
    out.append(b.as_str());
    proof {
        assert(out@ =~= old(out)@ + spec_cpu_profile(*cp));
    }
}


/// A metric of both traces and how it changed from the first to the second.
pub struct CompareCells {
    pub a: String,
    pub b: String,
    /// Relative change, or `-` when the first value is not positive.
    pub change: String,
}

/// Elements touched by style recalculation in both traces.
pub struct StyleComparison {
    pub avg: CompareCells,
    pub max_a: usize,
    pub max_b: usize,
    pub max_change: String,
}

/// The average scroll task of both traces, by category.
pub struct ScrollComparison {
    pub duration: CompareCells,
    pub js: CompareCells,
    pub style: CompareCells,
    pub layout: CompareCells,
    pub paint: CompareCells,
    pub composite: CompareCells,
    pub hit_test: CompareCells,
    pub bottleneck_a: String,
    pub count_a: usize,
    pub bottleneck_b: String,
    pub count_b: usize,
}

/// Average duration of one event kind in both traces.
pub struct EventAvgRow {
    pub event_name: String,
    pub cells: CompareCells,
}

/// A function's share of sampled time in both traces, largest change first.
pub struct CpuDiffRow {
    pub source_type: SourceType,
    pub function_name: String,
    pub pct_a: String,
    pub pct_b: String,
    /// Change in percentage points, with a `+` when it grew.
    pub change: String,
}

/// The comparison of two traces.
pub struct CompareReport {
    pub findings: Vec<Finding>,
    pub long_task_count_a: usize,
    pub long_task_count_b: usize,
    pub long_task_change: String,
    pub worst_task: CompareCells,
    pub main_thread_busy: CompareCells,
    pub layout_dirty_avg: CompareCells,
    /// Style recalculations in each trace; the style rows appear when either
    /// has some.
    pub style_count_a: usize,
    pub style_count_b: usize,
    pub style_elements: StyleComparison,
    /// Present when both traces have scroll tasks.
    pub scroll: Option<ScrollComparison>,
    pub rows: Vec<EventAvgRow>,
    pub cpu_diff: Vec<CpuDiffRow>,
}

pub open spec fn spec_severity_icon(s: FindingSeverity) -> Seq<char> {
    match s {
        FindingSeverity::Improved => "+"@,
        FindingSeverity::Regressed => "!"@,
        FindingSeverity::Neutral => "="@,
    }
}

pub open spec fn spec_severity_label(s: FindingSeverity) -> Seq<char> {
    match s {
        FindingSeverity::Improved => "IMPROVED"@,
        FindingSeverity::Regressed => "REGRESSED"@,
        FindingSeverity::Neutral => "NEUTRAL"@,
    }
}

pub open spec fn spec_finding_line(f: Finding) -> Seq<char> {
    "- **["@ + spec_severity_icon(f.severity) + "]** "@ + spec_severity_label(f.severity) + " "@
        + f.category@ + ": "@ + f.message@ + if f.detail@.len() == 0 {
        "\n"@
    } else {
        " ("@ + f.detail@ + ")\n"@
    }
}

pub open spec fn finding_line_fn() -> spec_fn(Finding, nat) -> Seq<char> {
    |f: Finding, i: nat| spec_finding_line(f)
}

pub open spec fn spec_compare_row(name: Seq<char>, a: Seq<char>, b: Seq<char>, change: Seq<char>) -> Seq<char> {
    "| "@ + name + " | "@ + a + " | "@ + b + " | "@ + change + " |\n"@
}

pub open spec fn spec_cells_row(name: Seq<char>, c: CompareCells) -> Seq<char> {
    spec_compare_row(name, c.a@, c.b@, c.change@)
}

pub open spec fn event_avg_row_fn() -> spec_fn(EventAvgRow, nat) -> Seq<char> {
    |r: EventAvgRow, i: nat| spec_cells_row(r.event_name@, r.cells)
}

pub open spec fn spec_cpu_diff_row(r: CpuDiffRow) -> Seq<char> {
    "| "@ + spec_source_label(r.source_type) + " | "@ + spec_display_name(r.function_name@)
        + " | "@ + r.pct_a@ + "% | "@ + r.pct_b@ + "% | "@ + r.change@ + " |\n"@
}

pub open spec fn cpu_diff_row_fn() -> spec_fn(CpuDiffRow, nat) -> Seq<char> {
    |r: CpuDiffRow, i: nat| spec_cpu_diff_row(r)
}

pub open spec fn spec_compare_findings(report: CompareReport) -> Seq<char> {
    if report.findings@.len() == 0 {
        Seq::empty()
    } else {
        "### Key Findings\n\n"@ + spec_numbered(report.findings@, finding_line_fn()) + "\n"@
    }
}

pub open spec fn spec_compare_quick_stats(report: CompareReport) -> Seq<char> {
    "### Quick Stats\n\n"@ + "| Metric | A | B | Change |\n"@ + "|--------|---|---|--------|\n"@
        + spec_compare_row(
        "Long Tasks"@,
        spec_decimal(report.long_task_count_a as nat),
        spec_decimal(report.long_task_count_b as nat),
        report.long_task_change@,
    ) + spec_cells_row("Worst Task"@, report.worst_task) + spec_cells_row(
        "Main Thread Busy"@,
        report.main_thread_busy,
    ) + spec_cells_row("Layout Dirty (avg)"@, report.layout_dirty_avg) + (if report.style_count_a > 0
        || report.style_count_b > 0 {
        spec_cells_row("Style Elements (avg)"@, report.style_elements.avg) + spec_compare_row(
            "Style Elements (max)"@,
            spec_decimal(report.style_elements.max_a as nat),
            spec_decimal(report.style_elements.max_b as nat),
            report.style_elements.max_change@,
        )
    } else {
        Seq::empty()
    }) + "\n"@
}

pub open spec fn spec_compare_scroll(sc: ScrollComparison) -> Seq<char> {
    "### Scroll Frame Comparison (per task avg)\n\n"@ + "| Category | A | B | Change |\n"@
        + "|----------|---|---|--------|\n"@ + spec_cells_row("Duration"@, sc.duration)
        + spec_cells_row("JS"@, sc.js) + spec_cells_row("Style (ULT)"@, sc.style) + spec_cells_row(
        "Layout"@,
        sc.layout,
    ) + spec_cells_row("Paint"@, sc.paint) + spec_cells_row("Composite"@, sc.composite)
        + spec_cells_row("HitTest"@, sc.hit_test) + "\n- **A Bottleneck**: "@ + sc.bottleneck_a@
        + " ("@ + spec_decimal(sc.count_a as nat) + " tasks)\n"@ + "- **B Bottleneck**: "@
        + sc.bottleneck_b@ + " ("@ + spec_decimal(sc.count_b as nat) + " tasks)\n\n"@
}

pub open spec fn spec_compare_events(report: CompareReport) -> Seq<char> {
    "### Per-Event Average Comparison\n\n"@ + "| Event | Avg (A) | Avg (B) | Change |\n"@
        + "|-------|---------|---------|--------|\n"@ + spec_numbered(report.rows@, event_avg_row_fn())
        + "\n"@
}

pub open spec fn spec_compare_cpu(report: CompareReport) -> Seq<char> {
    if report.cpu_diff@.len() == 0 {
        Seq::empty()
    } else {
        "### CPU Profile Diff (Top Functions by Impact)\n\n"@
            + "| Source | Function | A % | B % | Change (pp) |\n"@
            + "|--------|----------|-----|-----|-------------|\n"@ + spec_numbered(
            spec_first(report.cpu_diff@, 20),
            cpu_diff_row_fn(),
        ) + "\n"@
    }
}

pub open spec fn spec_compare_head(name_a: Seq<char>, name_b: Seq<char>) -> Seq<char> {
    "## Comparison: "@ + name_a + " (A) vs "@ + name_b + " (B)\n\n"@
}

pub open spec fn spec_compare_scroll_opt(report: CompareReport) -> Seq<char> {
    match report.scroll {
        Some(sc) => spec_compare_scroll(sc),
        None => Seq::empty(),
    }
}

pub open spec fn spec_compare(report: CompareReport, name_a: Seq<char>, name_b: Seq<char>) -> Seq<char> {
    spec_compare_head(name_a, name_b) + spec_compare_findings(report) + spec_compare_quick_stats(
        report,
    ) + spec_compare_scroll_opt(report) + spec_compare_events(report) + spec_compare_cpu(report)
}

fn severity_icon(s: FindingSeverity) -> (icon: &'static str)
    ensures
        icon@ == spec_severity_icon(s),
{
    match s {
        FindingSeverity::Improved => "+",
        FindingSeverity::Regressed => "!",
        FindingSeverity::Neutral => "=",
    }
}

fn severity_label(s: FindingSeverity) -> (label: &'static str)
    ensures
        label@ == spec_severity_label(s),
{
    match s {
        FindingSeverity::Improved => "IMPROVED",
        FindingSeverity::Regressed => "REGRESSED",
        FindingSeverity::Neutral => "NEUTRAL",
    }
}

fn finding_line(f: &Finding) -> (s: String)
    ensures
        s@ == spec_finding_line(*f),
{
    let mut s = String::new();
    s.append("- **[");
    s.append(severity_icon(f.severity));
    s.append("]** ");
    s.append(severity_label(f.severity));
    s.append(" ");
    s.append(f.category.as_str());
    s.append(": ");
    s.append(f.message.as_str());
    if f.detail.as_str().is_empty() {
        s.append("\n");
    } else {
        s.append(" (");
        s.append(f.detail.as_str());
        s.append(")\n");
    }
    proof {
        assert(s@ =~= spec_finding_line(*f));
    }
    s
}

fn compare_row(name: &str, a: &str, b: &str, change: &str) -> (s: String)
    ensures
        s@ == spec_compare_row(name@, a@, b@, change@),
{
    let mut s = String::new();
    s.append("| ");
    s.append(name);
    s.append(" | ");
    s.append(a);
    s.append(" | ");
    s.append(b);
    s.append(" | ");
    s.append(change);
    s.append(" |\n");
    proof {
        assert(s@ =~= spec_compare_row(name@, a@, b@, change@));
    }
    s
}

fn cells_row(name: &str, c: &CompareCells) -> (s: String)
    ensures
        s@ == spec_cells_row(name@, *c),
{
    compare_row(name, c.a.as_str(), c.b.as_str(), c.change.as_str())
}

fn cpu_diff_row(r: &CpuDiffRow) -> (s: String)
    ensures
        s@ == spec_cpu_diff_row(*r),
{
    let mut s = String::new();
    s.append("| ");
    s.append(r.source_type.label());
    s.append(" | ");
    s.append(display_name(r.function_name.as_str()));
    s.append(" | ");
    s.append(r.pct_a.as_str());
    s.append("% | ");
    s.append(r.pct_b.as_str());
    s.append("% | ");
    s.append(r.change.as_str());
    s.append(" |\n");
    proof {
        assert(s@ =~= spec_cpu_diff_row(*r));
    }
    s
}

#[verifier::spinoff_prover]
fn compare_findings(report: &CompareReport) -> (s: String)
    ensures
        s@ == spec_compare_findings(*report),
{
    let mut s = String::new();
    if report.findings.len() == 0 {
        return s;
    }
    s.append("### Key Findings\n\n");
    let ghost base = s@;
    let rows = &report.findings;
    let mut i: usize = 0;
    while i < rows.len()
        invariant
            0 <= i <= rows.len(),
            s@ == base + spec_numbered(rows@.take(i as int), finding_line_fn()),
        decreases rows.len() - i,
    {
        proof {
            lemma_numbered_step(rows@, finding_line_fn(), i as int);
        }
        let line = finding_line(&rows[i]);
        s.append(line.as_str());
        i = i + 1;
    }
    s.append("\n");
    proof {
        assert(rows@.take(rows.len() as int) =~= rows@);
        assert(s@ =~= spec_compare_findings(*report));
    }
    s
}

#[verifier::spinoff_prover]
fn compare_quick_stats(report: &CompareReport) -> (s: String)
    ensures
        s@ == spec_compare_quick_stats(*report),
{
    let mut s = String::new();
    s.append("### Quick Stats\n\n");
    s.append("| Metric | A | B | Change |\n");
    s.append("|--------|---|---|--------|\n");
    let ca = crate::text::decimal(report.long_task_count_a);
    let cb = crate::text::decimal(report.long_task_count_b);
    let r1 = compare_row("Long Tasks", ca.as_str(), cb.as_str(), report.long_task_change.as_str());
    s.append(r1.as_str());
    let r2 = cells_row("Worst Task", &report.worst_task);
    s.append(r2.as_str());
    let r3 = cells_row("Main Thread Busy", &report.main_thread_busy);
    s.append(r3.as_str());
    let r4 = cells_row("Layout Dirty (avg)", &report.layout_dirty_avg);
    s.append(r4.as_str());
    if report.style_count_a > 0 || report.style_count_b > 0 {
        let r5 = cells_row("Style Elements (avg)", &report.style_elements.avg);
        s.append(r5.as_str());
        let ma = crate::text::decimal(report.style_elements.max_a);
        let mb = crate::text::decimal(report.style_elements.max_b);
        let r6 = compare_row(
            "Style Elements (max)",
            ma.as_str(),
            mb.as_str(),
            report.style_elements.max_change.as_str(),
        );
        s.append(r6.as_str());
    }
    s.append("\n");
    proof {
        assert(s@ =~= spec_compare_quick_stats(*report));
    }
    s
}

#[verifier::spinoff_prover]
fn compare_scroll(sc: &ScrollComparison) -> (s: String)
    ensures
        s@ == spec_compare_scroll(*sc),
{
    let mut s = String::new();
    s.append("### Scroll Frame Comparison (per task avg)\n\n");
    s.append("| Category | A | B | Change |\n");
    s.append("|----------|---|---|--------|\n");
    let r = cells_row("Duration", &sc.duration);
    s.append(r.as_str());
    let r = cells_row("JS", &sc.js);
    s.append(r.as_str());
    let r = cells_row("Style (ULT)", &sc.style);
    s.append(r.as_str());
    let r = cells_row("Layout", &sc.layout);
    s.append(r.as_str());
    let r = cells_row("Paint", &sc.paint);
    s.append(r.as_str());
    let r = cells_row("Composite", &sc.composite);
    s.append(r.as_str());
    let r = cells_row("HitTest", &sc.hit_test);
    s.append(r.as_str());
    s.append("\n- **A Bottleneck**: ");
    s.append(sc.bottleneck_a.as_str());
    s.append(" (");
    push_decimal(&mut s, sc.count_a);
    s.append(" tasks)\n");
    s.append("- **B Bottleneck**: ");
    s.append(sc.bottleneck_b.as_str());
    s.append(" (");
    push_decimal(&mut s, sc.count_b);
    s.append(" tasks)\n\n");
    proof {
        assert(s@ =~= spec_compare_scroll(*sc));
    }
    s
}

#[verifier::spinoff_prover]
fn compare_events(report: &CompareReport) -> (s: String)
    ensures
        s@ == spec_compare_events(*report),
{
    let mut s = String::new();
    s.append("### Per-Event Average Comparison\n\n");
    s.append("| Event | Avg (A) | Avg (B) | Change |\n");
    s.append("|-------|---------|---------|--------|\n");
    let ghost base = s@;
    let rows = &report.rows;
    let mut i: usize = 0;
    while i < rows.len()
        invariant
            0 <= i <= rows.len(),
            s@ == base + spec_numbered(rows@.take(i as int), event_avg_row_fn()),
        decreases rows.len() - i,
    {
        proof {
            lemma_numbered_step(rows@, event_avg_row_fn(), i as int);
        }
        let line = cells_row(rows[i].event_name.as_str(), &rows[i].cells);
        s.append(line.as_str());
        i = i + 1;
    }
    s.append("\n");
    proof {
        assert(rows@.take(rows.len() as int) =~= rows@);
        assert(s@ =~= spec_compare_events(*report));
    }
    s
}

#[verifier::spinoff_prover]
fn compare_cpu(report: &CompareReport) -> (s: String)
    ensures
        s@ == spec_compare_cpu(*report),
{
    let mut s = String::new();
    if report.cpu_diff.len() == 0 {
        return s;
    }
    s.append("### CPU Profile Diff (Top Functions by Impact)\n\n");
    s.append("| Source | Function | A % | B % | Change (pp) |\n");
    s.append("|--------|----------|-----|-----|-------------|\n");
    let ghost base = s@;
    let rows = &report.cpu_diff;
    let count = if rows.len() < 20 { rows.len() } else { 20 };
    let mut i: usize = 0;
    while i < count
        invariant
            count <= rows.len(),
            0 <= i <= count,
            s@ == base + spec_numbered(rows@.take(i as int), cpu_diff_row_fn()),
        decreases count - i,
    {
        proof {
            lemma_numbered_step(rows@, cpu_diff_row_fn(), i as int);
        }
        let line = cpu_diff_row(&rows[i]);
        s.append(line.as_str());
        i = i + 1;
    }
    s.append("\n");
    proof {
        lemma_first_is_take(rows@, 20, count as int);
        assert(s@ =~= spec_compare_cpu(*report));
    }
    s
}

fn compare_head(name_a: &str, name_b: &str) -> (s: String)
    ensures
        s@ == spec_compare_head(name_a@, name_b@),
{
    let mut s = String::new();
    s.append("## Comparison: ");
    s.append(name_a);
    s.append(" (A) vs ");
    s.append(name_b);
    s.append(" (B)\n\n");
    proof {
        assert(s@ =~= spec_compare_head(name_a@, name_b@));
    }
    s
}

fn compare_scroll_opt(report: &CompareReport) -> (s: String)
    ensures
        s@ == spec_compare_scroll_opt(*report),
{
    match &report.scroll {
        Some(sc) => compare_scroll(sc),
        None => String::new(),
    }
}

/// Appends the comparison of two traces: findings, quick stats, the scroll
/// breakdown when both traces have scroll tasks, per-event averages and at
/// most twenty CPU-profile changes.
pub fn export_compare(out: &mut String, report: &CompareReport, name_a: &str, name_b: &str)
    ensures
        final(out)@ == old(out)@ + spec_compare(*report, name_a@, name_b@),
{
    let h = compare_head(name_a, name_b);
    let f = compare_findings(report);
    let q = compare_quick_stats(report);
    let t = compare_scroll_opt(report);
    let e = compare_events(report);
    let c = compare_cpu(report);
    out.append(h.as_str());
    out.append(f.as_str());
    out.append(q.as_str());
    out.append(t.as_str());
    out.append(e.as_str());
    out.append(c.as_str());
    proof {
        assert(out@ =~= old(out)@ + (h@ + f@ + q@ + t@ + e@ + c@));
    }
}


/// Recording conditions read from the trace's metadata.
pub struct TraceInfo {
    pub page_url: Option<String>,
    /// When the trace was recorded.
    pub start_time: Option<String>,
    /// CPU slow-down factor, present only when it is above 1.
    pub cpu_throttle: Option<String>,
    /// Network throttling profile, as the trace names it.
    pub network: Option<String>,
    /// Device pixel ratio of the host.
    pub dpr: Option<String>,
}

/// Everything the Markdown report shows.
pub struct MarkdownReport {
    pub trace_name_a: String,
    /// Name of the second trace, when one was compared.
    pub trace_name_b: Option<String>,
    pub trace_info: Option<TraceInfo>,
    /// Throttle factor that times are divided by, present only when it is
    /// above 1; the report notes it unless the recording conditions already
    /// state a CPU throttle.
    pub throttle: Option<String>,
    pub summary: SummaryReport,
    pub scroll_frames: ScrollFramesReport,
    pub cpu_profile: CpuProfileReport,
    pub layout_dirty: LayoutDirtyReport,
    pub style_recalc: StyleRecalcReport,
    pub forced_reflows: ForcedReflowReport,
    pub compare: Option<CompareReport>,
}

pub open spec fn spec_optional_line(label: Seq<char>, value: Option<String>) -> Seq<char> {
    match value {
        Some(v) => label + v@ + "\n"@,
        None => Seq::empty(),
    }
}

/// The network profile is worth showing unless it is empty or says there
/// was no throttling.
pub open spec fn spec_shows_network(net: Seq<char>) -> bool {
    net.len() > 0 && net != "No throttling"@
}

pub open spec fn spec_trace_info(m: TraceInfo) -> Seq<char> {
    "**Trace Info**\n\n"@ + spec_optional_line("- **URL**: "@, m.page_url) + spec_optional_line(
        "- **Recorded**: "@,
        m.start_time,
    ) + match m.cpu_throttle {
        Some(c) => "- **CPU Throttle**: "@ + c@ + "x (divide times by "@ + c@
            + " for real-world)\n"@,
        None => Seq::empty(),
    } + match m.network {
        Some(n) => if spec_shows_network(n@) {
            "- **Network**: "@ + n@ + "\n"@
        } else {
            Seq::empty()
        },
        None => Seq::empty(),
    } + spec_optional_line("- **DPR**: "@, m.dpr) + "\n"@
}

pub open spec fn spec_throttle_note(throttle: Option<String>) -> Seq<char> {
    match throttle {
        Some(f) => "> **Note**: CPU throttle "@ + f@ + "x applied. Divide times by "@ + f@
            + " for real-world estimates.\n\n"@,
        None => Seq::empty(),
    }
}

/// Whether the recording conditions already state a CPU throttle.
pub open spec fn spec_info_states_throttle(info: Option<TraceInfo>) -> bool {
    match info {
        Some(m) => m.cpu_throttle is Some,
        None => false,
    }
}

/// The title, the recording conditions when the trace has them, and the
/// throttle note when a throttle factor above 1 is set and the recording
/// conditions do not already state one.
pub open spec fn spec_report_header(r: MarkdownReport) -> Seq<char> {
    "# Chrome Trace Analysis: "@ + r.trace_name_a@ + "\n\n"@ + match r.trace_info {
        Some(m) => spec_trace_info(m),
        None => Seq::empty(),
    } + if spec_info_states_throttle(r.trace_info) {
        Seq::empty()
    } else {
        spec_throttle_note(r.throttle)
    }
}

pub open spec fn spec_name_b(r: MarkdownReport) -> Seq<char> {
    match r.trace_name_b {
        Some(b) => b@,
        None => "B"@,
    }
}

/// The whole report, section by section.
pub open spec fn spec_markdown(r: MarkdownReport) -> Seq<char> {
    spec_report_header(r) + spec_overview(r.summary, r.trace_name_a@) + spec_scroll_frames(
        r.scroll_frames,
    ) + spec_cpu_profile(r.cpu_profile) + spec_layout_dirty(r.layout_dirty) + spec_style_recalc(
        r.style_recalc,
    ) + spec_forced_reflows(r.forced_reflows) + spec_event_breakdown(r.summary) + match r.compare {
        Some(c) => spec_compare(c, r.trace_name_a@, spec_name_b(r)),
        None => Seq::empty(),
    }
}

fn push_optional_line(out: &mut String, label: &str, value: &Option<String>)
    ensures
        final(out)@ == old(out)@ + spec_optional_line(label@, *value),
{
    match value {
        Some(v) => {
            out.append(label);
            out.append(v.as_str());
            out.append("\n");
        },
        None => {},
    }
    proof {
        assert(out@ =~= old(out)@ + spec_optional_line(label@, *value));
    }
}

#[verifier::spinoff_prover]
fn trace_info(m: &TraceInfo) -> (s: String)
    ensures
        s@ == spec_trace_info(*m),
{
    let mut s = String::new();
    s.append("**Trace Info**\n\n");
    push_optional_line(&mut s, "- **URL**: ", &m.page_url);
    push_optional_line(&mut s, "- **Recorded**: ", &m.start_time);
    match &m.cpu_throttle {
        Some(c) => {
            s.append("- **CPU Throttle**: ");
            s.append(c.as_str());
            s.append("x (divide times by ");
            s.append(c.as_str());
            s.append(" for real-world)\n");
        },
        None => {},
    }
    match &m.network {
        Some(n) => {
            if !n.as_str().is_empty() && !str_eq(n.as_str(), "No throttling") {
                s.append("- **Network**: ");
                s.append(n.as_str());
                s.append("\n");
            }
        },
        None => {},
    }
    push_optional_line(&mut s, "- **DPR**: ", &m.dpr);
    s.append("\n");
    proof {
        assert(s@ =~= spec_trace_info(*m));
    }
    s
}

#[verifier::spinoff_prover]
fn report_header(r: &MarkdownReport) -> (s: String)
    ensures
        s@ == spec_report_header(*r),
{
    let mut s = String::new();
    s.append("# Chrome Trace Analysis: ");
    s.append(r.trace_name_a.as_str());
    s.append("\n\n");
    let info = match &r.trace_info {
        Some(m) => trace_info(m),
        None => String::new(),
    };
    s.append(info.as_str());
    let stated = match &r.trace_info {
        Some(m) => m.cpu_throttle.is_some(),
        None => false,
    };
    if stated {
        proof {
            assert(s@ =~= spec_report_header(*r));
        }
        return s;
    }
    match &r.throttle {
        Some(f) => {
            s.append("> **Note**: CPU throttle ");
            s.append(f.as_str());
            s.append("x applied. Divide times by ");
            s.append(f.as_str());
            s.append(" for real-world estimates.\n\n");
        },
        None => {},
    }
    proof {
        assert(s@ =~= spec_report_header(*r));
    }
    s
}

/// Writes the whole analysis as Markdown: the header with recording
/// conditions, then overview, scroll frames, CPU profile, layout, style
/// recalculation, forced reflows, event breakdown and, when a second trace
/// was loaded, the comparison.
#[verifier::spinoff_prover]
pub fn export_markdown(r: &MarkdownReport) -> (out: String)
    ensures
        out@ == spec_markdown(*r),
{
    let mut out = report_header(r);
    export_overview(&mut out, &r.summary, r.trace_name_a.as_str());
    export_scroll_frames(&mut out, &r.scroll_frames);
    export_cpu_profile(&mut out, &r.cpu_profile);
    export_layout_dirty(&mut out, &r.layout_dirty);
    export_style_recalc(&mut out, &r.style_recalc);
    export_forced_reflows(&mut out, &r.forced_reflows);
    export_event_breakdown(&mut out, &r.summary);
    match &r.compare {
        Some(c) => {
            let name_b: &str = match &r.trace_name_b {
                Some(b) => b.as_str(),
                None => "B",
            };
            export_compare(&mut out, c, r.trace_name_a.as_str(), name_b);
        },
        None => {},
    }
    proof {
        assert(out@ =~= spec_markdown(*r));
    }
    out
}


/// Where `--export` sends the report.
#[derive(Debug)]
pub enum ExportTarget {
    /// Standard output (`--export` alone, or `--export=-`).
    Stdout,
    /// The named file.
    File(String),
}

/// Reads the value of `--export`: `-` stands for standard output, anything
/// else names a file.
pub fn export_target(arg: &str) -> (target: ExportTarget)
    ensures
        arg@ == "-"@ ==> target is Stdout,
        arg@ != "-"@ ==> (target matches ExportTarget::File(f) && f@ == arg@),
{
    if str_eq(arg, "-") {
        ExportTarget::Stdout
    } else {
        let mut f = String::new();
        f.append(arg);
        ExportTarget::File(f)
    }
}

/// The file that the viewer's export key writes: `chperf-export-<name>.md`.
pub open spec fn spec_export_file_name(name: Seq<char>) -> Seq<char> {
    "chperf-export-"@ + name + ".md"@
}

pub fn export_file_name(name: &str) -> (file: String)
    ensures
        file@ == spec_export_file_name(name@),
{
    let mut f = String::new();
    f.append("chperf-export-");
    f.append(name);
    f.append(".md");
    proof {
        assert(f@ =~= spec_export_file_name(name@));
    }
    f
}


/// A row of a table with four cells.
pub open spec fn spec_row_of_four(name: Seq<char>, a: Seq<char>, b: Seq<char>, c: Seq<char>) -> Seq<char> {
    "| "@ + name + " | "@ + a + " | "@ + b + " | "@ + c + " |\n"@
}

/// A numbered table holds the row of each of its entries, written with the
/// entry's number (counted from 1).
#[verifier::spinoff_prover]
pub proof fn lemma_numbered_holds_row<R>(rows: Seq<R>, f: spec_fn(R, nat) -> Seq<char>, i: int)
    requires
        0 <= i < rows.len(),
    ensures
        spec_contains(spec_numbered(rows, f), f(rows[i], (i + 1) as nat)),
    decreases rows.len(),
{
    broadcast use crate::text::group_contains;
    if i < rows.len() - 1 {
        lemma_numbered_holds_row(rows.drop_last(), f, i);
        assert(rows.drop_last()[i] == rows[i]);
    }
}

/// When a comparison is present, the report's comparison heading names the
/// first trace and the second one by its own name, or as `B` when it has
/// none.
#[verifier::spinoff_prover]
pub proof fn lemma_markdown_compare_heading(r: MarkdownReport)
    requires
        r.compare is Some,
    ensures
        r.trace_name_b matches Some(b) ==> spec_contains(
            spec_markdown(r),
            "## Comparison: "@ + r.trace_name_a@ + " (A) vs "@ + b@ + " (B)\n\n"@,
        ),
        r.trace_name_b is None ==> spec_contains(
            spec_markdown(r),
            "## Comparison: "@ + r.trace_name_a@ + " (A) vs "@ + "B"@ + " (B)\n\n"@,
        ),
{
    broadcast use crate::text::group_contains;
}

/// In the scroll comparison, each category's row carries that category's
/// own values for both traces and their change.
#[verifier::spinoff_prover]
pub proof fn lemma_compare_scroll_rows(report: CompareReport, name_a: Seq<char>, name_b: Seq<char>)
    requires
        report.scroll is Some,
    ensures
        ({
            let sc = report.scroll->0;
            let out = spec_compare(report, name_a, name_b);
            &&& spec_contains(out, spec_row_of_four("Duration"@, sc.duration.a@, sc.duration.b@, sc.duration.change@))
            &&& spec_contains(out, spec_row_of_four("JS"@, sc.js.a@, sc.js.b@, sc.js.change@))
            &&& spec_contains(out, spec_row_of_four("Style (ULT)"@, sc.style.a@, sc.style.b@, sc.style.change@))
            &&& spec_contains(out, spec_row_of_four("Layout"@, sc.layout.a@, sc.layout.b@, sc.layout.change@))
            &&& spec_contains(out, spec_row_of_four("Paint"@, sc.paint.a@, sc.paint.b@, sc.paint.change@))
            &&& spec_contains(out, spec_row_of_four("Composite"@, sc.composite.a@, sc.composite.b@, sc.composite.change@))
            &&& spec_contains(out, spec_row_of_four("HitTest"@, sc.hit_test.a@, sc.hit_test.b@, sc.hit_test.change@))
        }),
{
    broadcast use crate::text::group_contains;
}

/// A row of the average-breakdown table: category, time and share.
pub open spec fn spec_row_of_share(name: Seq<char>, time: Seq<char>, pct: Seq<char>) -> Seq<char> {
    "| "@ + name + " | "@ + time + " | "@ + pct + "% |\n"@
}

/// When there are scroll tasks, the average-breakdown table gives each
/// category its own time and share.
#[verifier::spinoff_prover]
pub proof fn lemma_scroll_breakdown_rows(sf: ScrollFramesReport)
    requires
        sf.tasks@.len() > 0,
    ensures
        spec_contains(spec_scroll_frames(sf), spec_row_of_share("JS (FunctionCall)"@, sf.js.time@, sf.js.pct@)),
        spec_contains(spec_scroll_frames(sf), spec_row_of_share("Style (UpdateLayoutTree)"@, sf.style.time@, sf.style.pct@)),
        spec_contains(spec_scroll_frames(sf), spec_row_of_share("Layout"@, sf.layout.time@, sf.layout.pct@)),
        spec_contains(spec_scroll_frames(sf), spec_row_of_share("Paint"@, sf.paint.time@, sf.paint.pct@)),
        spec_contains(spec_scroll_frames(sf), spec_row_of_share("Composite (Layerize+Commit)"@, sf.composite.time@, sf.composite.pct@)),
        spec_contains(spec_scroll_frames(sf), spec_row_of_share("HitTest"@, sf.hit_test.time@, sf.hit_test.pct@)),
{
    broadcast use crate::text::group_contains;
}

/// The CPU table lists each of the first thirty functions under its number,
/// with source, name (or `(anonymous)`), self time, then its own share, then
/// the running total of shares, then the last segment of its URL.
#[verifier::spinoff_prover]
pub proof fn lemma_cpu_function_rows(cp: CpuProfileReport, i: int)
    requires
        0 <= i < cp.functions@.len(),
        i < 30,
    ensures
        ({
            let f = cp.functions@[i];
            spec_contains(
                spec_cpu_profile(cp),
                "| "@ + spec_decimal((i + 1) as nat) + " | "@ + spec_source_label(f.source_type)
                    + " | "@ + spec_display_name(f.function_name@) + " | "@ + f.self_time@
                    + " | "@ + f.pct@ + "% | "@ + f.cum_pct@ + "% | "@ + spec_shorten_url(f.url@)
                    + " |\n"@,
            )
        }),
{
    broadcast use crate::text::group_contains;
    let rows = spec_first(cp.functions@, 30);
    assert(rows[i] == cp.functions@[i]);
    lemma_numbered_holds_row(rows, cpu_function_row_fn(), i);
}


/// The overview names the trace and gives duration, main-thread load and
/// the number of long tasks, each on its own labelled line.
#[verifier::spinoff_prover]
pub proof fn lemma_overview_lines(summary: SummaryReport, name: Seq<char>)
    ensures
        spec_contains(spec_overview(summary, name), "- **Trace**: "@ + name + "\n"@),
        spec_contains(spec_overview(summary, name), "- **Duration**: "@ + summary.duration@ + "\n"@),
        spec_contains(
            spec_overview(summary, name),
            "- **Main Thread Busy**: "@ + summary.busy_pct@ + "% ("@ + summary.busy@ + ")\n"@,
        ),
        spec_contains(
            spec_overview(summary, name),
            "- **Long Tasks (>50ms)**: "@ + spec_decimal(summary.long_task_count as nat) + "\n"@,
        ),
{
    broadcast use crate::text::group_contains, crate::text::group_contains_lines;
}

/// The event breakdown has one row per event kind, with its name, total
/// time, count, average and share of the trace, in that order.
#[verifier::spinoff_prover]
pub proof fn lemma_event_breakdown_rows(summary: SummaryReport, i: int)
    requires
        0 <= i < summary.event_stats@.len(),
    ensures
        ({
            let e = summary.event_stats@[i];
            spec_contains(
                spec_event_breakdown(summary),
                "| "@ + e.name@ + " | "@ + e.total@ + " | "@ + spec_decimal(e.count as nat) + " | "@
                    + e.avg@ + " | "@ + e.pct@ + "% |\n"@,
            )
        }),
{
    broadcast use crate::text::group_contains;
    lemma_numbered_holds_row(summary.event_stats@, event_stat_row_fn(), i);
}

/// With style data, the section gives event count, average and largest
/// element counts, and lists each of the first ten events under its number
/// with its duration and element count.
#[verifier::spinoff_prover]
pub proof fn lemma_style_recalc_lines(sr: StyleRecalcReport, i: int)
    requires
        0 <= i < sr.entries@.len(),
        i < 10,
    ensures
        spec_contains(spec_style_recalc(sr), "- **Events**: "@ + spec_decimal(sr.total_count as nat) + "\n"@),
        spec_contains(spec_style_recalc(sr), "- **Avg Elements**: "@ + sr.avg_elements@ + "\n"@),
        spec_contains(spec_style_recalc(sr), "- **Max Elements**: "@ + spec_decimal(sr.max_elements as nat) + "\n\n"@),
        ({
            let e = sr.entries@[i];
            spec_contains(
                spec_style_recalc(sr),
                "| "@ + spec_decimal((i + 1) as nat) + " | "@ + e.dur@ + " | "@ + spec_decimal(
                    e.element_count as nat,
                ) + " |\n"@,
            )
        }),
{
    broadcast use crate::text::group_contains, crate::text::group_contains_lines;
    let rows = spec_first(sr.entries@, 10);
    assert(rows[i] == sr.entries@[i]);
    lemma_numbered_holds_row(rows, style_recalc_row_fn(), i);
}

/// With thrashing tasks, the section gives their number, the total reflows
/// and layout time, and lists each of the first ten under its number with
/// task duration, reflow count and layout time.
#[verifier::spinoff_prover]
pub proof fn lemma_forced_reflow_lines(fr: ForcedReflowReport, i: int)
    requires
        0 <= i < fr.entries@.len(),
        i < 10,
    ensures
        spec_contains(spec_forced_reflows(fr), "- **Tasks with thrashing**: "@ + spec_decimal(fr.entries@.len()) + "\n"@),
        spec_contains(spec_forced_reflows(fr), "- **Total reflows**: "@ + spec_decimal(fr.total_reflows as nat) + "\n"@),
        spec_contains(spec_forced_reflows(fr), "- **Total layout time**: "@ + fr.total_layout_time@ + "\n\n"@),
        ({
            let e = fr.entries@[i];
            spec_contains(
                spec_forced_reflows(fr),
                "| "@ + spec_decimal((i + 1) as nat) + " | "@ + e.task_dur@ + " | "@ + spec_decimal(
                    e.reflow_count as nat,
                ) + " | "@ + e.layout_time@ + " |\n"@,
            )
        }),
{
    broadcast use crate::text::group_contains, crate::text::group_contains_lines;
    let rows = spec_first(fr.entries@, 10);
    assert(rows[i] == fr.entries@[i]);
    lemma_numbered_holds_row(rows, forced_reflow_row_fn(), i);
}

/// With layout data, the section gives the number of events, average and
/// largest dirty counts and the average ratio, and lists each of the first
/// ten events under its number with duration, dirty and total objects and
/// ratio.
#[verifier::spinoff_prover]
pub proof fn lemma_layout_dirty_lines(ld: LayoutDirtyReport, i: int)
    requires
        0 <= i < ld.entries@.len(),
        i < 10,
    ensures
        spec_contains(spec_layout_dirty(ld), "- **Layout Events**: "@ + spec_decimal(ld.entries@.len()) + "\n"@),
        spec_contains(spec_layout_dirty(ld), "- **Avg Dirty Objects**: "@ + ld.avg_dirty@ + "\n"@),
        spec_contains(spec_layout_dirty(ld), "- **Max Dirty Objects**: "@ + spec_decimal(ld.max_dirty as nat) + "\n"@),
        spec_contains(spec_layout_dirty(ld), "- **Avg Dirty Ratio**: "@ + ld.avg_ratio@ + "%\n\n"@),
        ({
            let e = ld.entries@[i];
            spec_contains(
                spec_layout_dirty(ld),
                "| "@ + spec_decimal((i + 1) as nat) + " | "@ + e.dur@ + " | "@ + spec_decimal(
                    e.dirty_count as nat,
                ) + " | "@ + spec_decimal(e.total_count as nat) + " | "@ + e.ratio@ + "% |\n"@,
            )
        }),
{
    broadcast use crate::text::group_contains, crate::text::group_contains_lines;
    let rows = spec_first(ld.entries@, 10);
    assert(rows[i] == ld.entries@[i]);
    lemma_numbered_holds_row(rows, layout_dirty_row_fn(), i);
}

/// With scroll tasks, the section gives their number, the average duration,
/// the 50th, 90th and 99th percentiles in that order, the bottleneck, and
/// lists each of the first ten tasks under its number with duration,
/// bottleneck, script, style, layout and paint time.
#[verifier::spinoff_prover]
#[verifier::rlimit(40)]
pub proof fn lemma_scroll_frames_lines(sf: ScrollFramesReport, i: int)
    requires
        0 <= i < sf.tasks@.len(),
        i < 10,
    ensures
        spec_contains(spec_scroll_frames(sf), "- **Scroll Tasks**: "@ + spec_decimal(sf.tasks@.len()) + "\n"@),
        spec_contains(spec_scroll_frames(sf), "- **Avg Duration**: "@ + sf.avg_dur@ + "\n"@),
        spec_contains(
            spec_scroll_frames(sf),
            "- **P50**: "@ + sf.p50@ + " / **P90**: "@ + sf.p90@ + " / **P99**: "@ + sf.p99@ + "\n"@,
        ),
        spec_contains(spec_scroll_frames(sf), "- **Bottleneck**: "@ + sf.bottleneck@ + "\n"@),
        ({
            let t = sf.tasks@[i];
            spec_contains(
                spec_scroll_frames(sf),
                "| "@ + spec_decimal((i + 1) as nat) + " | "@ + t.dur@ + " | "@ + t.bottleneck@
                    + " | "@ + t.js@ + " | "@ + t.style@ + " | "@ + t.layout@ + " | "@ + t.paint@
                    + " |\n"@,
            )
        }),
{
    broadcast use crate::text::group_contains, crate::text::group_contains_lines;
    let rows = spec_first(sf.tasks@, 10);
    assert(rows[i] == sf.tasks@[i]);
    lemma_numbered_holds_row(rows, scroll_task_row_fn(), i);
}

/// With profile data, the section gives the sampled time and, for app code,
/// runtime and native code in that order, each one's time and share.
#[verifier::spinoff_prover]
pub proof fn lemma_cpu_totals_lines(cp: CpuProfileReport)
    requires
        cp.functions@.len() > 0,
    ensures
        spec_contains(spec_cpu_profile(cp), "- **Total Sample Time**: "@ + cp.total@ + "\n"@),
        spec_contains(spec_cpu_profile(cp), "- **App Code**: "@ + cp.app.time@ + " ("@ + cp.app.pct@ + "%)\n"@),
        spec_contains(
            spec_cpu_profile(cp),
            "- **Runtime/Library**: "@ + cp.runtime.time@ + " ("@ + cp.runtime.pct@ + "%)\n"@,
        ),
        spec_contains(
            spec_cpu_profile(cp),
            "- **Native/Browser**: "@ + cp.native.time@ + " ("@ + cp.native.pct@ + "%)\n\n"@,
        ),
{
    broadcast use crate::text::group_contains, crate::text::group_contains_lines;
}

/// The comparison lists each finding on a line of its own, marked `[+]
/// IMPROVED`, `[!] REGRESSED` or `[=] NEUTRAL` by its direction, then its
/// category and message, and its detail in brackets when it has one.
#[verifier::spinoff_prover]
pub proof fn lemma_compare_finding_lines(report: CompareReport, name_a: Seq<char>, name_b: Seq<char>, i: int)
    requires
        0 <= i < report.findings@.len(),
    ensures
        ({
            let f = report.findings@[i];
            let tail = if f.detail@.len() == 0 {
                "\n"@
            } else {
                " ("@ + f.detail@ + ")\n"@
            };
            let out = spec_compare(report, name_a, name_b);
            &&& f.severity == FindingSeverity::Improved ==> spec_contains(
                out,
                "- **["@ + "+"@ + "]** "@ + "IMPROVED"@ + " "@ + f.category@ + ": "@ + f.message@ + tail,
            )
            &&& f.severity == FindingSeverity::Regressed ==> spec_contains(
                out,
                "- **["@ + "!"@ + "]** "@ + "REGRESSED"@ + " "@ + f.category@ + ": "@ + f.message@ + tail,
            )
            &&& f.severity == FindingSeverity::Neutral ==> spec_contains(
                out,
                "- **["@ + "="@ + "]** "@ + "NEUTRAL"@ + " "@ + f.category@ + ": "@ + f.message@ + tail,
            )
        }),
{
    broadcast use crate::text::group_contains;
    lemma_numbered_holds_row(report.findings@, finding_line_fn(), i);
}

/// The quick stats give, for both traces and their change, the number of
/// long tasks, the worst task, main-thread load and average layout dirty
/// count, each in its own row; and, when either trace recalculated style,
/// the average and largest element counts.
#[verifier::spinoff_prover]
pub proof fn lemma_compare_quick_stats_rows(report: CompareReport, name_a: Seq<char>, name_b: Seq<char>)
    ensures
        ({
            let out = spec_compare(report, name_a, name_b);
            let st = report.style_elements;
            &&& spec_contains(out, spec_row_of_four(
                "Long Tasks"@,
                spec_decimal(report.long_task_count_a as nat),
                spec_decimal(report.long_task_count_b as nat),
                report.long_task_change@,
            ))
            &&& spec_contains(out, spec_row_of_four(
                "Worst Task"@,
                report.worst_task.a@,
                report.worst_task.b@,
                report.worst_task.change@,
            ))
            &&& spec_contains(out, spec_row_of_four(
                "Main Thread Busy"@,
                report.main_thread_busy.a@,
                report.main_thread_busy.b@,
                report.main_thread_busy.change@,
            ))
            &&& spec_contains(out, spec_row_of_four(
                "Layout Dirty (avg)"@,
                report.layout_dirty_avg.a@,
                report.layout_dirty_avg.b@,
                report.layout_dirty_avg.change@,
            ))
            &&& (report.style_count_a > 0 || report.style_count_b > 0) ==> spec_contains(
                out,
                spec_row_of_four("Style Elements (avg)"@, st.avg.a@, st.avg.b@, st.avg.change@),
            )
            &&& (report.style_count_a > 0 || report.style_count_b > 0) ==> spec_contains(
                out,
                spec_row_of_four(
                    "Style Elements (max)"@,
                    spec_decimal(st.max_a as nat),
                    spec_decimal(st.max_b as nat),
                    st.max_change@,
                ),
            )
        }),
{
    broadcast use crate::text::group_contains;
}

/// The scroll comparison names each trace's bottleneck with the number of
/// scroll tasks it was found in, the first trace's line first.
#[verifier::spinoff_prover]
pub proof fn lemma_compare_bottleneck_lines(report: CompareReport, name_a: Seq<char>, name_b: Seq<char>)
    requires
        report.scroll is Some,
    ensures
        ({
            let sc = report.scroll->0;
            spec_contains(
                spec_compare(report, name_a, name_b),
                "\n- **A Bottleneck**: "@ + sc.bottleneck_a@ + " ("@ + spec_decimal(sc.count_a as nat)
                    + " tasks)\n"@ + "- **B Bottleneck**: "@ + sc.bottleneck_b@ + " ("@ + spec_decimal(
                    sc.count_b as nat,
                ) + " tasks)\n\n"@,
            )
        }),
{
    broadcast use crate::text::group_contains;
    let sc = report.scroll->0;
    let t = "\n- **A Bottleneck**: "@ + sc.bottleneck_a@ + " ("@ + spec_decimal(sc.count_a as nat)
        + " tasks)\n"@ + "- **B Bottleneck**: "@ + sc.bottleneck_b@ + " ("@ + spec_decimal(
        sc.count_b as nat,
    ) + " tasks)\n\n"@;
    let s = spec_compare_scroll(sc);
    let h = s.subrange(0, s.len() - t.len());
    assert(s =~= h + t);
    assert(s.subrange(h.len() as int, (h.len() + t.len()) as int) =~= t);
}

/// The per-event table gives each event kind its average in both traces
/// and the change, in that order.
#[verifier::spinoff_prover]
pub proof fn lemma_compare_event_rows(report: CompareReport, name_a: Seq<char>, name_b: Seq<char>, i: int)
    requires
        0 <= i < report.rows@.len(),
    ensures
        ({
            let r = report.rows@[i];
            spec_contains(
                spec_compare(report, name_a, name_b),
                spec_row_of_four(r.event_name@, r.cells.a@, r.cells.b@, r.cells.change@),
            )
        }),
{
    broadcast use crate::text::group_contains;
    lemma_numbered_holds_row(report.rows@, event_avg_row_fn(), i);
}

/// The CPU diff lists each of the first twenty functions with source, name
/// (or `(anonymous)`), its share in the first trace, then in the second,
/// then the change.
#[verifier::spinoff_prover]
pub proof fn lemma_compare_cpu_rows(report: CompareReport, name_a: Seq<char>, name_b: Seq<char>, i: int)
    requires
        0 <= i < report.cpu_diff@.len(),
        i < 20,
    ensures
        ({
            let r = report.cpu_diff@[i];
            spec_contains(
                spec_compare(report, name_a, name_b),
                "| "@ + spec_source_label(r.source_type) + " | "@ + spec_display_name(r.function_name@)
                    + " | "@ + r.pct_a@ + "% | "@ + r.pct_b@ + "% | "@ + r.change@ + " |\n"@,
            )
        }),
{
    broadcast use crate::text::group_contains;
    let rows = spec_first(report.cpu_diff@, 20);
    assert(rows[i] == report.cpu_diff@[i]);
    lemma_numbered_holds_row(rows, cpu_diff_row_fn(), i);
}

/// The report opens with a title naming the first trace, then the
/// recording conditions when there are any. A throttle factor is noted
/// right after them unless they state a CPU throttle themselves; the
/// overview follows.
#[verifier::spinoff_prover]
pub proof fn lemma_markdown_header(r: MarkdownReport)
    ensures
        ({
            let out = spec_markdown(r);
            let title = "# Chrome Trace Analysis: "@ + r.trace_name_a@ + "\n\n"@;
            let info = match r.trace_info {
                Some(m) => spec_trace_info(m),
                None => Seq::empty(),
            };
            let note = match r.throttle {
                Some(f) => "> **Note**: CPU throttle "@ + f@ + "x applied. Divide times by "@ + f@
                    + " for real-world estimates.\n\n"@,
                None => Seq::empty(),
            };
            let states = match r.trace_info {
                Some(m) => m.cpu_throttle is Some,
                None => false,
            };
            &&& spec_starts_with(out, title)
            &&& !states ==> spec_starts_with(out, title + info + note + "## Overview\n\n"@)
            &&& states ==> spec_starts_with(out, title + info + "## Overview\n\n"@)
        }),
{
    broadcast use crate::text::group_starts_with;
    let h = spec_report_header(r);
    let ov = spec_overview(r.summary, r.trace_name_a@);
    lemma_starts_with_after(h, ov, "## Overview\n\n"@);
    let title = "# Chrome Trace Analysis: "@ + r.trace_name_a@ + "\n\n"@;
    let info = match r.trace_info {
        Some(m) => spec_trace_info(m),
        None => Seq::empty(),
    };
    if spec_info_states_throttle(r.trace_info) {
        assert(h =~= title + info);
    } else {
        assert(h =~= title + info + spec_throttle_note(r.throttle));
    }
}

/// The recording conditions give the page URL, the recording time, the CPU
/// throttle with the advice to divide times by it, the network profile
/// unless it is empty or unthrottled, and the pixel ratio, each on its own
/// labelled line when known.
#[verifier::spinoff_prover]
pub proof fn lemma_trace_info_lines(m: TraceInfo)
    ensures
        spec_starts_with(spec_trace_info(m), "**Trace Info**\n\n"@),
        m.page_url matches Some(u) ==> spec_contains(spec_trace_info(m), "- **URL**: "@ + u@ + "\n"@),
        m.start_time matches Some(t) ==> spec_contains(spec_trace_info(m), "- **Recorded**: "@ + t@ + "\n"@),
        m.cpu_throttle matches Some(c) ==> spec_contains(
            spec_trace_info(m),
            "- **CPU Throttle**: "@ + c@ + "x (divide times by "@ + c@ + " for real-world)\n"@,
        ),
        m.network matches Some(n) ==> (n@.len() > 0 && n@ != "No throttling"@ ==> spec_contains(
            spec_trace_info(m),
            "- **Network**: "@ + n@ + "\n"@,
        )),
        m.dpr matches Some(d) ==> spec_contains(spec_trace_info(m), "- **DPR**: "@ + d@ + "\n"@),
{
    broadcast use crate::text::group_contains, crate::text::group_starts_with;
}

/// The middle of a text made of a head, seven parts and a tail holds the
/// seven parts in order, and the tail ends it.
proof fn lemma_parts_between(
    h: Seq<char>,
    a: Seq<char>,
    b: Seq<char>,
    c: Seq<char>,
    d: Seq<char>,
    e: Seq<char>,
    f: Seq<char>,
    g: Seq<char>,
    t: Seq<char>,
)
    ensures
        spec_contains(h + a + b + c + d + e + f + g + t, a + b + c + d + e + f + g),
        ({
            let out = h + a + b + c + d + e + f + g + t;
            out.subrange(out.len() - t.len(), out.len() as int) == t
        }),
{
    broadcast use crate::text::group_contains, crate::text::group_contains_lines;
    let out = h + a + b + c + d + e + f + g + t;
    assert(out.subrange(out.len() - t.len(), out.len() as int) =~= t);
}

/// The report holds, one after the other, the overview, scroll frames, CPU
/// profile, layout dirty, style recalculation, forced reflow and event
/// breakdown sections; with a second trace, the comparison ends it.
#[verifier::spinoff_prover]
pub proof fn lemma_markdown_sections(r: MarkdownReport)
    ensures
        spec_contains(
            spec_markdown(r),
            spec_overview(r.summary, r.trace_name_a@) + spec_scroll_frames(r.scroll_frames)
                + spec_cpu_profile(r.cpu_profile) + spec_layout_dirty(r.layout_dirty)
                + spec_style_recalc(r.style_recalc) + spec_forced_reflows(r.forced_reflows)
                + spec_event_breakdown(r.summary),
        ),
        r.compare matches Some(c) ==> {
            let out = spec_markdown(r);
            let t = spec_compare(c, r.trace_name_a@, spec_name_b(r));
            &&& t.len() <= out.len()
            &&& out.subrange(out.len() - t.len(), out.len() as int) == t
        },
{
    let t = match r.compare {
        Some(c) => spec_compare(c, r.trace_name_a@, spec_name_b(r)),
        None => Seq::empty(),
    };
    lemma_parts_between(
        spec_report_header(r),
        spec_overview(r.summary, r.trace_name_a@),
        spec_scroll_frames(r.scroll_frames),
        spec_cpu_profile(r.cpu_profile),
        spec_layout_dirty(r.layout_dirty),
        spec_style_recalc(r.style_recalc),
        spec_forced_reflows(r.forced_reflows),
        spec_event_breakdown(r.summary),
        t,
    );
}

} // verus!
