use chperf::analysis::{count_findings, Finding, FindingSeverity, SourceType};
use chperf::app::Tab;
use chperf::ui::{
    bottleneck_advice, display_name, event_importance, fit_segments, importance_marker,
    panel_category, panel_detail, panel_icon, scroll_indicator, shorten_url, tab_title,
    visible_range, PANEL_FINDINGS,
};

#[test]
fn shorten_url_keeps_last_segment() {
    assert_eq!(shorten_url("https://example.com/static/app.js"), "app.js");
    assert_eq!(shorten_url("app.js"), "app.js");
    assert_eq!(shorten_url(""), "");
    assert_eq!(shorten_url("https://example.com/"), "");
    assert_eq!(shorten_url("/a/b/ü.js"), "ü.js");
}

#[test]
fn anonymous_functions_get_a_name() {
    assert_eq!(display_name(""), "(anonymous)");
    assert_eq!(display_name("render"), "render");
}

#[test]
fn visible_range_leaves_room_for_frame() {
    assert_eq!(visible_range(100, 0, 24), (0, 20));
    assert_eq!(visible_range(100, 90, 24), (90, 100));
    assert_eq!(visible_range(10, 50, 24), (10, 10));
    assert_eq!(visible_range(10, 2, 3), (2, 2));
}

#[test]
fn scroll_indicator_text() {
    assert_eq!(scroll_indicator(0, 14), " 1/14");
    assert_eq!(scroll_indicator(99, 14), " 14/14");
    assert_eq!(scroll_indicator(5, 0), "");
}

#[test]
fn tab_titles_are_numbered() {
    assert_eq!(tab_title(0, Tab::Summary), " 1 Summary ");
    assert_eq!(tab_title(4, Tab::Compare), " 5 Compare ");
}

#[test]
fn event_importance_levels() {
    assert_eq!(event_importance("Layout"), 3);
    assert_eq!(event_importance("FunctionCall"), 2);
    assert_eq!(event_importance("MinorGC"), 1);
    assert_eq!(importance_marker(3), "***");
    assert_eq!(importance_marker(2), "** ");
    assert_eq!(importance_marker(1), "*  ");
}

#[test]
fn bottleneck_advice_text() {
    assert_eq!(bottleneck_advice("Layout"), "-> Reduce layout thrashing");
    assert_eq!(bottleneck_advice("HitTest"), "-> Simplify DOM structure");
    assert_eq!(bottleneck_advice("None"), "");
}

#[test]
fn segments_fill_bar_exactly() {
    let (counts, filler) = fit_segments(&vec![3, 0, 4], 10);
    assert_eq!(counts, vec![3, 0, 4]);
    assert_eq!(filler, 3);

    let (counts, filler) = fit_segments(&vec![6, 6, 2], 10);
    assert_eq!(counts, vec![6, 4, 0]);
    assert_eq!(filler, 0);

    let (counts, filler) = fit_segments(&vec![], 7);
    assert!(counts.is_empty());
    assert_eq!(filler, 7);
}

#[test]
fn findings_panel_text() {
    assert_eq!(panel_icon(FindingSeverity::Improved), "  +");
    assert_eq!(panel_icon(FindingSeverity::Regressed), "  !");
    assert_eq!(panel_icon(FindingSeverity::Neutral), "  =");
    assert_eq!(panel_category("Layout"), " Layout: ");
    assert_eq!(panel_detail(""), None);
    assert_eq!(panel_detail("+40%"), Some("  (+40%)".to_string()));
    assert_eq!(PANEL_FINDINGS, 5);
}

#[test]
fn source_labels() {
    assert_eq!(SourceType::AppCode.label(), "App");
    assert_eq!(SourceType::Runtime.label(), "Runtime");
    assert_eq!(SourceType::Native.label(), "Native");
}

#[test]
fn findings_are_counted_by_severity() {
    let f = |s| Finding {
        severity: s,
        category: String::new(),
        message: String::new(),
        detail: String::new(),
    };
    let findings = vec![
        f(FindingSeverity::Improved),
        f(FindingSeverity::Regressed),
        f(FindingSeverity::Improved),
        f(FindingSeverity::Neutral),
    ];
    assert_eq!(count_findings(&findings, FindingSeverity::Improved), 2);
    assert_eq!(count_findings(&findings, FindingSeverity::Regressed), 1);
    assert_eq!(count_findings(&findings, FindingSeverity::Neutral), 1);
}

#[test]
fn shortened_url_is_already_short() {
    for url in ["https://a.b/c/d.js", "plain.js", "x/", ""] {
        let once = shorten_url(url);
        assert!(!once.contains('/'));
        assert_eq!(shorten_url(&once), once);
    }
}

#[test]
fn severity_counts_add_up() {
    let f = |s| Finding {
        severity: s,
        category: String::from("c"),
        message: String::from("m"),
        detail: String::new(),
    };
    let findings = vec![
        f(FindingSeverity::Neutral),
        f(FindingSeverity::Regressed),
        f(FindingSeverity::Regressed),
    ];
    let total = count_findings(&findings, FindingSeverity::Improved)
        + count_findings(&findings, FindingSeverity::Regressed)
        + count_findings(&findings, FindingSeverity::Neutral);
    assert_eq!(total, findings.len());
}
