use chperf::analysis::{Finding, FindingSeverity, SourceType};
use chperf::export::{
    export_compare, export_cpu_profile, export_event_breakdown, export_file_name,
    export_forced_reflows, export_layout_dirty, export_markdown, export_overview,
    export_scroll_frames, export_style_recalc, export_target, CompareCells, CompareReport,
    CpuDiffRow, CpuFunctionRow, CpuProfileReport, EventAvgRow, EventStatRow, ExportTarget,
    ForcedReflowReport, ForcedReflowRow, LayoutDirtyReport, LayoutDirtyRow, MarkdownReport,
    ScrollComparison, ScrollFramesReport, ScrollTaskRow, StyleComparison, StyleRecalcReport,
    StyleRecalcRow, SummaryReport, TimeShare, TraceInfo,
};

fn s(x: &str) -> String {
    x.to_string()
}

fn share(t: &str, p: &str) -> TimeShare {
    TimeShare { time: s(t), pct: s(p) }
}

fn cells(a: &str, b: &str, c: &str) -> CompareCells {
    CompareCells { a: s(a), b: s(b), change: s(c) }
}

fn summary(top: usize) -> SummaryReport {
    SummaryReport {
        duration: s("5.00s"),
        busy_pct: s("42.0"),
        busy: s("2.10s"),
        long_task_count: top,
        long_tasks_top: (0..top).map(|i| format!("{}ms", 100 - i)).collect(),
        event_stats: vec![
            EventStatRow { name: s("RunTask"), total: s("2.10s"), count: 812, avg: s("2.59ms"), pct: s("42.0") },
            EventStatRow { name: s("Layout"), total: s("300.00ms"), count: 40, avg: s("7.50ms"), pct: s("6.0") },
        ],
    }
}

fn empty_scroll() -> ScrollFramesReport {
    ScrollFramesReport {
        avg_dur: s("0"),
        p50: s("0"),
        p90: s("0"),
        p99: s("0"),
        bottleneck: s("None"),
        js: share("0", "0.0"),
        style: share("0", "0.0"),
        layout: share("0", "0.0"),
        paint: share("0", "0.0"),
        composite: share("0", "0.0"),
        hit_test: share("0", "0.0"),
        tasks: vec![],
    }
}

fn empty_cpu() -> CpuProfileReport {
    CpuProfileReport {
        total: s("0"),
        app: share("0", "0.0"),
        runtime: share("0", "0.0"),
        native: share("0", "0.0"),
        functions: vec![],
    }
}

#[test]
fn overview_section() {
    let mut out = String::new();
    export_overview(&mut out, &summary(2), "trace");
    assert_eq!(
        out,
        "## Overview\n\n- **Trace**: trace\n- **Duration**: 5.00s\n- **Main Thread Busy**: 42.0% (2.10s)\n- **Long Tasks (>50ms)**: 2\n- **Top Long Tasks**: 100ms, 99ms\n\n"
    );
}

#[test]
fn overview_lists_at_most_five_long_tasks() {
    let mut out = String::new();
    export_overview(&mut out, &summary(7), "t");
    assert!(out.contains("- **Long Tasks (>50ms)**: 7\n"));
    assert!(out.contains("- **Top Long Tasks**: 100ms, 99ms, 98ms, 97ms, 96ms\n"));
    assert!(!out.contains("95ms"));
}

#[test]
fn overview_without_long_tasks() {
    let mut out = String::from("x");
    export_overview(&mut out, &summary(0), "t");
    assert!(out.starts_with("x## Overview"));
    assert!(!out.contains("Top Long Tasks"));
    assert!(out.ends_with("- **Long Tasks (>50ms)**: 0\n\n"));
}

#[test]
fn event_breakdown_table() {
    let mut out = String::new();
    export_event_breakdown(&mut out, &summary(0));
    assert_eq!(
        out,
        "## Event Breakdown\n\n| Event | Total | Count | Avg | % of Trace |\n|-------|-------|-------|-----|------------|\n| RunTask | 2.10s | 812 | 2.59ms | 42.0% |\n| Layout | 300.00ms | 40 | 7.50ms | 6.0% |\n\n"
    );
}

#[test]
fn scroll_frames_without_tasks() {
    let mut out = String::new();
    export_scroll_frames(&mut out, &empty_scroll());
    assert_eq!(
        out,
        "## Scroll Frame Analysis\n\nNo scroll tasks detected (RunTask containing ULT>50ms or FunctionCall>50ms).\n\n"
    );
}

#[test]
fn scroll_frames_with_tasks() {
    let mut sf = empty_scroll();
    sf.avg_dur = s("80.00ms");
    sf.p50 = s("70.00ms");
    sf.p90 = s("120.00ms");
    sf.p99 = s("150.00ms");
    sf.bottleneck = s("Style");
    sf.style = share("50.00ms", "62.5");
    for i in 0..12 {
        sf.tasks.push(ScrollTaskRow {
            dur: format!("{}ms", 150 - i),
            bottleneck: s("Style"),
            js: s("1ms"),
            style: s("90ms"),
            layout: s("10ms"),
            paint: s("2ms"),
        });
    }
    let mut out = String::new();
    export_scroll_frames(&mut out, &sf);
    assert!(out.starts_with("## Scroll Frame Analysis\n\n- **Scroll Tasks**: 12\n- **Avg Duration**: 80.00ms\n- **P50**: 70.00ms / **P90**: 120.00ms / **P99**: 150.00ms\n- **Bottleneck**: Style\n\n"));
    assert!(out.contains("| Style (UpdateLayoutTree) | 50.00ms | 62.5% |\n"));
    assert!(out.contains("| 1 | 150ms | Style | 1ms | 90ms | 10ms | 2ms |\n"));
    assert!(out.contains("| 10 | 141ms | Style |"));
    assert!(!out.contains("| 11 |"));
    assert!(out.ends_with("|\n\n"));
}

#[test]
fn cpu_profile_sections() {
    let mut out = String::new();
    export_cpu_profile(&mut out, &empty_cpu());
    assert_eq!(
        out,
        "## CPU Profile (Top Functions by Self-Time)\n\nNo CPU profile data found (ProfileChunk events).\n\n"
    );

    let mut cp = empty_cpu();
    cp.total = s("1.00s");
    cp.app = share("600.00ms", "60.0");
    cp.runtime = share("300.00ms", "30.0");
    cp.native = share("100.00ms", "10.0");
    cp.functions.push(CpuFunctionRow {
        source_type: SourceType::AppCode,
        function_name: s(""),
        url: s("https://site/js/main.js"),
        self_time: s("500.00ms"),
        pct: s("50.0"),
        cum_pct: s("50.0"),
    });
    let mut out = String::new();
    export_cpu_profile(&mut out, &cp);
    assert_eq!(
        out,
        "## CPU Profile (Top Functions by Self-Time)\n\n- **Total Sample Time**: 1.00s\n- **App Code**: 600.00ms (60.0%)\n- **Runtime/Library**: 300.00ms (30.0%)\n- **Native/Browser**: 100.00ms (10.0%)\n\n| # | Source | Function | Self Time | % | Cumulative % | File |\n|---|--------|----------|-----------|---|-------------|------|\n| 1 | App | (anonymous) | 500.00ms | 50.0% | 50.0% | main.js |\n\n"
    );
}

#[test]
fn cpu_profile_lists_thirty_functions() {
    let mut cp = empty_cpu();
    for i in 0..40 {
        cp.functions.push(CpuFunctionRow {
            source_type: SourceType::Native,
            function_name: format!("f{}", i),
            url: s(""),
            self_time: s("1ms"),
            pct: s("1.0"),
            cum_pct: s("1.0"),
        });
    }
    let mut out = String::new();
    export_cpu_profile(&mut out, &cp);
    assert!(out.contains("| 30 | Native | f29 |"));
    assert!(!out.contains("| 31 |"));
}

#[test]
fn layout_dirty_sections() {
    let mut out = String::new();
    let mut ld = LayoutDirtyReport { avg_dirty: s("12"), max_dirty: 40, avg_ratio: s("3.5"), entries: vec![] };
    export_layout_dirty(&mut out, &ld);
    assert_eq!(out, "## Layout Dirty Objects\n\nNo Layout events with dirty object data found.\n\n");
    ld.entries.push(LayoutDirtyRow { dur: s("4.00ms"), dirty_count: 40, total_count: 800, ratio: s("5.0") });
    let mut out = String::new();
    export_layout_dirty(&mut out, &ld);
    assert_eq!(
        out,
        "## Layout Dirty Objects\n\n- **Layout Events**: 1\n- **Avg Dirty Objects**: 12\n- **Max Dirty Objects**: 40\n- **Avg Dirty Ratio**: 3.5%\n\n### Top 10 Layout Events (by dirty count)\n\n| # | Duration | Dirty | Total | Ratio |\n|---|----------|-------|-------|-------|\n| 1 | 4.00ms | 40 | 800 | 5.0% |\n\n"
    );
}

#[test]
fn style_recalc_section() {
    let mut out = String::new();
    let mut sr = StyleRecalcReport { total_count: 0, avg_elements: s("0"), max_elements: 0, entries: vec![] };
    export_style_recalc(&mut out, &sr);
    assert_eq!(out, "");
    sr.total_count = 3;
    sr.avg_elements = s("120");
    sr.max_elements = 300;
    sr.entries.push(StyleRecalcRow { dur: s("2.00ms"), element_count: 300 });
    export_style_recalc(&mut out, &sr);
    assert_eq!(
        out,
        "## Style Recalc (UpdateLayoutTree)\n\n- **Events**: 3\n- **Avg Elements**: 120\n- **Max Elements**: 300\n\n| # | Duration | Elements |\n|---|----------|----------|\n| 1 | 2.00ms | 300 |\n\n"
    );
}

#[test]
fn forced_reflow_section() {
    let mut out = String::new();
    let mut fr = ForcedReflowReport { total_reflows: 0, total_layout_time: s("0"), entries: vec![] };
    export_forced_reflows(&mut out, &fr);
    assert_eq!(out, "");
    fr.total_reflows = 6;
    fr.total_layout_time = s("12.00ms");
    for _ in 0..11 {
        fr.entries.push(ForcedReflowRow { task_dur: s("60.00ms"), reflow_count: 3, layout_time: s("6.00ms") });
    }
    export_forced_reflows(&mut out, &fr);
    assert!(out.starts_with("## Forced Reflow (Layout Thrashing)\n\n- **Tasks with thrashing**: 11\n- **Total reflows**: 6\n- **Total layout time**: 12.00ms\n\n"));
    assert!(out.contains("| 10 | 60.00ms | 3 | 6.00ms |\n"));
    assert!(!out.contains("| 11 |"));
}

fn compare_report(style: bool, scroll: bool) -> CompareReport {
    CompareReport {
        findings: vec![
            Finding { severity: FindingSeverity::Regressed, category: s("Layout"), message: s("layout time up"), detail: s("+40%") },
            Finding { severity: FindingSeverity::Improved, category: s("JS"), message: s("less script"), detail: s("") },
        ],
        long_task_count_a: 3,
        long_task_count_b: 5,
        long_task_change: s("+66.7%"),
        worst_task: cells("120.00ms", "90.00ms", "-25.0%"),
        main_thread_busy: cells("2.00s", "2.10s", "+5.0%"),
        layout_dirty_avg: cells("12", "30", "+150.0%"),
        style_count_a: if style { 4 } else { 0 },
        style_count_b: 0,
        style_elements: StyleComparison { avg: cells("100", "0", "-100.0%"), max_a: 250, max_b: 0, max_change: s("-100.0%") },
        scroll: if scroll {
            Some(ScrollComparison {
                duration: cells("80ms", "60ms", "-25.0%"),
                js: cells("1", "1", "+0.0%"),
                style: cells("2", "2", "+0.0%"),
                layout: cells("3", "3", "+0.0%"),
                paint: cells("4", "4", "+0.0%"),
                composite: cells("5", "5", "+0.0%"),
                hit_test: cells("6", "6", "+0.0%"),
                bottleneck_a: s("Style"),
                count_a: 12,
                bottleneck_b: s("JS"),
                count_b: 9,
            })
        } else {
            None
        },
        rows: vec![EventAvgRow { event_name: s("Paint"), cells: cells("1.00ms", "2.00ms", "+100.0%") }],
        cpu_diff: vec![CpuDiffRow {
            source_type: SourceType::Runtime,
            function_name: s("parse"),
            pct_a: s("3.0"),
            pct_b: s("5.5"),
            change: s("+2.5pp"),
        }],
    }
}

#[test]
fn compare_section() {
    let mut out = String::new();
    export_compare(&mut out, &compare_report(false, false), "before", "after");
    assert_eq!(
        out,
        "## Comparison: before (A) vs after (B)\n\n### Key Findings\n\n- **[!]** REGRESSED Layout: layout time up (+40%)\n- **[+]** IMPROVED JS: less script\n\n### Quick Stats\n\n| Metric | A | B | Change |\n|--------|---|---|--------|\n| Long Tasks | 3 | 5 | +66.7% |\n| Worst Task | 120.00ms | 90.00ms | -25.0% |\n| Main Thread Busy | 2.00s | 2.10s | +5.0% |\n| Layout Dirty (avg) | 12 | 30 | +150.0% |\n\n### Per-Event Average Comparison\n\n| Event | Avg (A) | Avg (B) | Change |\n|-------|---------|---------|--------|\n| Paint | 1.00ms | 2.00ms | +100.0% |\n\n### CPU Profile Diff (Top Functions by Impact)\n\n| Source | Function | A % | B % | Change (pp) |\n|--------|----------|-----|-----|-------------|\n| Runtime | parse | 3.0% | 5.5% | +2.5pp |\n\n"
    );
}

#[test]
fn compare_style_and_scroll_rows() {
    let mut out = String::new();
    export_compare(&mut out, &compare_report(true, true), "a", "b");
    assert!(out.contains("| Style Elements (avg) | 100 | 0 | -100.0% |\n| Style Elements (max) | 250 | 0 | -100.0% |\n\n"));
    assert!(out.contains("### Scroll Frame Comparison (per task avg)\n\n| Category | A | B | Change |\n|----------|---|---|--------|\n| Duration | 80ms | 60ms | -25.0% |\n"));
    assert!(out.contains("| HitTest | 6 | 6 | +0.0% |\n\n- **A Bottleneck**: Style (12 tasks)\n- **B Bottleneck**: JS (9 tasks)\n\n"));
}

fn markdown(info: Option<TraceInfo>, throttle: Option<String>, compare: bool) -> MarkdownReport {
    MarkdownReport {
        trace_name_a: s("before"),
        trace_name_b: None,
        trace_info: info,
        throttle,
        summary: summary(0),
        scroll_frames: empty_scroll(),
        cpu_profile: empty_cpu(),
        layout_dirty: LayoutDirtyReport { avg_dirty: s("0"), max_dirty: 0, avg_ratio: s("0.0"), entries: vec![] },
        style_recalc: StyleRecalcReport { total_count: 0, avg_elements: s("0"), max_elements: 0, entries: vec![] },
        forced_reflows: ForcedReflowReport { total_reflows: 0, total_layout_time: s("0"), entries: vec![] },
        compare: if compare { Some(compare_report(false, false)) } else { None },
    }
}

#[test]
fn markdown_report_order() {
    let md = export_markdown(&markdown(None, None, false));
    assert!(md.starts_with("# Chrome Trace Analysis: before\n\n## Overview\n\n"));
    let order = ["## Overview", "## Scroll Frame Analysis", "## CPU Profile", "## Layout Dirty Objects", "## Event Breakdown"];
    let mut last = 0;
    for h in order {
        let at = md.find(h).unwrap();
        assert!(at >= last);
        last = at;
    }
    assert!(!md.contains("## Comparison"));
}

#[test]
fn markdown_names_second_trace_b_by_default() {
    let md = export_markdown(&markdown(None, None, true));
    assert!(md.contains("## Comparison: before (A) vs B (B)\n\n"));
}

#[test]
fn markdown_throttle_note_without_metadata() {
    let md = export_markdown(&markdown(None, Some(s("20")), false));
    assert!(md.starts_with("# Chrome Trace Analysis: before\n\n> **Note**: CPU throttle 20x applied. Divide times by 20 for real-world estimates.\n\n## Overview"));
}

#[test]
fn markdown_trace_info_block() {
    let info = TraceInfo {
        page_url: Some(s("https://example.com/")),
        start_time: Some(s("2024-05-01")),
        cpu_throttle: Some(s("6")),
        network: Some(s("No throttling")),
        dpr: Some(s("2")),
    };
    let md = export_markdown(&markdown(Some(info), None, false));
    assert!(md.starts_with("# Chrome Trace Analysis: before\n\n**Trace Info**\n\n- **URL**: https://example.com/\n- **Recorded**: 2024-05-01\n- **CPU Throttle**: 6x (divide times by 6 for real-world)\n- **DPR**: 2\n\n## Overview"));

    let info = TraceInfo { page_url: None, start_time: None, cpu_throttle: None, network: Some(s("Slow 3G")), dpr: None };
    let md = export_markdown(&markdown(Some(info), None, false));
    assert!(md.starts_with("# Chrome Trace Analysis: before\n\n**Trace Info**\n\n- **Network**: Slow 3G\n\n## Overview"));

    let info = TraceInfo { page_url: None, start_time: None, cpu_throttle: None, network: Some(s("")), dpr: None };
    let md = export_markdown(&markdown(Some(info), None, false));
    assert!(md.starts_with("# Chrome Trace Analysis: before\n\n**Trace Info**\n\n\n## Overview"));
}

#[test]
fn export_file_names() {
    assert_eq!(export_file_name("before"), "chperf-export-before.md");
}

#[test]
fn export_targets() {
    assert!(matches!(export_target("-"), ExportTarget::Stdout));
    match export_target("report.md") {
        ExportTarget::File(f) => assert_eq!(f, "report.md"),
        ExportTarget::Stdout => panic!("expected a file"),
    }
}

#[test]
fn markdown_throttle_note_with_metadata() {
    let info = TraceInfo { page_url: None, start_time: Some(s("2024-05-01")), cpu_throttle: None, network: None, dpr: None };
    let md = export_markdown(&markdown(Some(info), Some(s("6")), false));
    assert!(md.starts_with("# Chrome Trace Analysis: before\n\n**Trace Info**\n\n- **Recorded**: 2024-05-01\n\n> **Note**: CPU throttle 6x applied. Divide times by 6 for real-world estimates.\n\n## Overview"));
}

#[test]
fn markdown_throttle_note_not_repeated() {
    let info = TraceInfo { page_url: None, start_time: None, cpu_throttle: Some(s("20")), network: None, dpr: None };
    let md = export_markdown(&markdown(Some(info), Some(s("20")), false));
    assert!(md.starts_with("# Chrome Trace Analysis: before\n\n**Trace Info**\n\n- **CPU Throttle**: 20x (divide times by 20 for real-world)\n\n## Overview"));
    assert!(!md.contains("> **Note**"));
}
