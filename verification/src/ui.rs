use vstd::prelude::*;

use crate::analysis::FindingSeverity;
use crate::app::{spec_key_tab, spec_label, spec_tab_exists, Key, KeyCode, Tab};
use crate::text::{chars_of, push_decimal, spec_decimal, str_eq};

verus! {

/// The part of `s` after its last `/`; all of `s` when it has none.
pub open spec fn spec_shorten_url(s: Seq<char>) -> Seq<char>
    decreases s.len(),
{
    if s.len() == 0 {
        s
    } else if s.last() == '/' {
        Seq::empty()
    } else {
        spec_shorten_url(s.drop_last()).push(s.last())
    }
}

proof fn lemma_shorten_url_after(s: Seq<char>, k: int)
    requires
        0 <= k < s.len(),
        s[k] == '/',
        forall|j: int| k < j < s.len() ==> s[j] != '/',
    ensures
        spec_shorten_url(s) == s.subrange(k + 1, s.len() as int),
    decreases s.len(),
{
    if k < s.len() - 1 {
        lemma_shorten_url_after(s.drop_last(), k);
        assert(s.subrange(k + 1, s.len() as int) =~= s.drop_last().subrange(
            k + 1,
            s.drop_last().len() as int,
        ).push(s.last()));
    } else {
        assert(s.subrange(k + 1, s.len() as int) =~= Seq::<char>::empty());
    }
}

proof fn lemma_shorten_url_none(s: Seq<char>)
    requires
        forall|j: int| 0 <= j < s.len() ==> s[j] != '/',
    ensures
        spec_shorten_url(s) == s,
    decreases s.len(),
{
    if s.len() > 0 {
        lemma_shorten_url_none(s.drop_last());
        assert(s.drop_last().push(s.last()) =~= s);
    }
}

/// A shortened URL holds no `/`, so shortening it again changes nothing.
pub proof fn lemma_shorten_url_idempotent(s: Seq<char>)
    ensures
        !spec_shorten_url(s).contains('/'),
        spec_shorten_url(spec_shorten_url(s)) == spec_shorten_url(s),
    decreases s.len(),
{
    if s.len() > 0 && s.last() != '/' {
        lemma_shorten_url_idempotent(s.drop_last());
        let prev = spec_shorten_url(s.drop_last());
        let cur = prev.push(s.last());
        assert forall|j: int| 0 <= j < cur.len() implies cur[j] != '/' by {
            if j < prev.len() {
                assert(cur[j] == prev[j]);
                if prev[j] == '/' {
                    assert(prev.contains('/'));
                }
            }
        }
    }
    let r = spec_shorten_url(s);
    assert forall|j: int| 0 <= j < r.len() implies r[j] != '/' by {
        if r[j] == '/' {
            assert(r.contains('/'));
        }
    }
    lemma_shorten_url_none(r);
}

/// The last path segment of a script URL, as the CPU tables show it.
pub fn shorten_url(url: &str) -> (short: String)
    ensures
        short@ == spec_shorten_url(url@),
{
    let cs = chars_of(url);
    let n = cs.len();
    let mut i: usize = n;
    while i > 0
        invariant
            cs@ == url@,
            n == cs@.len(),
            0 <= i <= n,
            forall|j: int| i <= j < n ==> cs@[j] != '/',
        decreases i,
    {
        if cs[i - 1] == '/' {
            proof {
                lemma_shorten_url_after(url@, i - 1);
            }
            let rest = url.substring_char(i, n);
            let mut short = String::new();
            short.append(rest);
            return short;
        }
        i = i - 1;
    }
    proof {
        lemma_shorten_url_none(url@);
    }
    let mut short = String::new();
    short.append(url);
    short
}

/// The name shown for a profiled function: `(anonymous)` when it has none.
pub open spec fn spec_display_name(name: Seq<char>) -> Seq<char> {
    if name.len() == 0 {
        "(anonymous)"@
    } else {
        name
    }
}

pub fn display_name(name: &str) -> (shown: &str)
    ensures
        shown@ == spec_display_name(name@),
{
    if name.is_empty() {
        "(anonymous)"
    } else {
        name
    }
}

/// The rows of a list that fit on screen: those from `offset` on, at most
/// `area_height - 4` of them (four lines go to borders and the header).
/// Returns the first index and one past the last.
pub fn visible_range(len: usize, offset: usize, area_height: usize) -> (range: (usize, usize))
    ensures
        range.0 == if offset <= len { offset } else { len },
        range.1 == if range.0 + (if area_height >= 4 { area_height - 4 } else { 0int }) <= len {
            range.0 + (if area_height >= 4 { area_height - 4 } else { 0int })
        } else {
            len as int
        },
{
    let max_visible = area_height.saturating_sub(4);
    let start = if offset <= len { offset } else { len };
    let end = if max_visible <= len - start { start + max_visible } else { len };
    (start, end)
}

/// The scroll position shown in the status bar: ` row/rows`, or nothing
/// when the tab has no rows.
pub open spec fn spec_scroll_indicator(offset: usize, row_count: usize) -> Seq<char> {
    if row_count > 0 {
        let shown: nat = if offset + 1 <= row_count { (offset + 1) as nat } else { row_count as nat };
        " "@ + spec_decimal(shown) + "/"@ + spec_decimal(row_count as nat)
    } else {
        Seq::empty()
    }
}

pub fn scroll_indicator(offset: usize, row_count: usize) -> (s: String)
    ensures
        s@ == spec_scroll_indicator(offset, row_count),
{
    let mut s = String::new();
    if row_count > 0 {
        let shown = if offset < row_count { offset + 1 } else { row_count };
        s.append(" ");
        push_decimal(&mut s, shown);
        s.append("/");
        push_decimal(&mut s, row_count);
    }
    proof {
        assert(s@ =~= spec_scroll_indicator(offset, row_count));
    }
    s
}

/// Title of the tab at `index` on the tab bar, numbered from 1.
pub open spec fn spec_tab_title(index: nat, t: Tab) -> Seq<char> {
    " "@ + spec_decimal(index + 1) + " "@ + spec_label(t) + " "@
}

pub fn tab_title(index: usize, t: Tab) -> (title: String)
    requires
        index < usize::MAX,
    ensures
        title@ == spec_tab_title(index as nat, t),
{
    let mut s = String::new();
    s.append(" ");
    push_decimal(&mut s, index + 1);
    s.append(" ");
    s.append(t.label());
    s.append(" ");
    proof {
        assert(s@ =~= spec_tab_title(index as nat, t));
    }
    s
}

/// How much an event kind matters for scrolling: 3 for the task, style and
/// layout events, 2 for paint, script and animation-frame events, 1 otherwise.
pub open spec fn spec_event_importance(name: Seq<char>) -> u8 {
    if name == "RunTask"@ || name == "UpdateLayoutTree"@ || name == "Layout"@ {
        3
    } else if name == "Paint"@ || name == "FunctionCall"@ || name == "FireAnimationFrame"@ {
        2
    } else {
        1
    }
}

pub fn event_importance(name: &str) -> (level: u8)
    ensures
        level == spec_event_importance(name@),
{
    if str_eq(name, "RunTask") || str_eq(name, "UpdateLayoutTree") || str_eq(name, "Layout") {
        3
    } else if str_eq(name, "Paint") || str_eq(name, "FunctionCall") || str_eq(
        name,
        "FireAnimationFrame",
    ) {
        2
    } else {
        1
    }
}

/// The star marker of an importance level in the event table.
pub open spec fn spec_importance_marker(level: u8) -> Seq<char> {
    if level >= 3 {
        "***"@
    } else if level == 2 {
        "** "@
    } else {
        "*  "@
    }
}

pub fn importance_marker(level: u8) -> (marker: &'static str)
    ensures
        marker@ == spec_importance_marker(level),
{
    if level >= 3 {
        "***"
    } else if level == 2 {
        "** "
    } else {
        "*  "
    }
}

/// The advice shown next to the dominant cost of the average scroll task.
pub open spec fn spec_bottleneck_advice(bottleneck: Seq<char>) -> Seq<char> {
    if bottleneck == "JS"@ {
        "-> Optimize JS / reduce work"@
    } else if bottleneck == "Style"@ {
        "-> Reduce CSS complexity / selectors"@
    } else if bottleneck == "Layout"@ {
        "-> Reduce layout thrashing"@
    } else if bottleneck == "Paint"@ {
        "-> Reduce paint area / use layers"@
    } else if bottleneck == "Composite"@ {
        "-> Reduce layer count"@
    } else if bottleneck == "HitTest"@ {
        "-> Simplify DOM structure"@
    } else {
        ""@
    }
}

pub fn bottleneck_advice(bottleneck: &str) -> (advice: &'static str)
    ensures
        advice@ == spec_bottleneck_advice(bottleneck@),
{
    if str_eq(bottleneck, "JS") {
        "-> Optimize JS / reduce work"
    } else if str_eq(bottleneck, "Style") {
        "-> Reduce CSS complexity / selectors"
    } else if str_eq(bottleneck, "Layout") {
        "-> Reduce layout thrashing"
    } else if str_eq(bottleneck, "Paint") {
        "-> Reduce paint area / use layers"
    } else if str_eq(bottleneck, "Composite") {
        "-> Reduce layer count"
    } else if str_eq(bottleneck, "HitTest") {
        "-> Simplify DOM structure"
    } else {
        ""
    }
}


pub open spec fn spec_sum(s: Seq<int>) -> int
    decreases s.len(),
{
    if s.len() == 0 {
        0
    } else {
        spec_sum(s.drop_last()) + s.last()
    }
}

/// Cells given to each segment of a bar `width` cells wide: each segment
/// gets what it asks for, cut down to the cells still free.
pub open spec fn spec_segments(wanted: Seq<usize>, width: int) -> Seq<int>
    decreases wanted.len(),
{
    if wanted.len() == 0 {
        Seq::empty()
    } else {
        let prev = spec_segments(wanted.drop_last(), width);
        let free = width - spec_sum(prev);
        let want = wanted.last() as int;
        prev.push(if want <= free { want } else { free })
    }
}

proof fn lemma_segments_fit(wanted: Seq<usize>, width: int)
    requires
        width >= 0,
    ensures
        spec_segments(wanted, width).len() == wanted.len(),
        0 <= spec_sum(spec_segments(wanted, width)) <= width,
        forall|i: int|
            0 <= i < wanted.len() ==> #[trigger] spec_segments(wanted, width)[i] >= 0,
    decreases wanted.len(),
{
    if wanted.len() > 0 {
        lemma_segments_fit(wanted.drop_last(), width);
        let prev = spec_segments(wanted.drop_last(), width);
        let cur = spec_segments(wanted, width);
        assert(cur.drop_last() =~= prev);
        assert forall|i: int| 0 <= i < wanted.len() implies #[trigger] cur[i] >= 0 by {
            if i < wanted.len() - 1 {
                assert(cur[i] == prev[i]);
            }
        }
    }
}

/// Splits a bar of `width` cells among its segments. Returns the cells of
/// each segment and the cells left over (the share of whatever the segments
/// do not cover); together they fill the bar exactly.
pub fn fit_segments(wanted: &Vec<usize>, width: usize) -> (fit: (Vec<usize>, usize))
    ensures
        fit.0@.len() == wanted@.len(),
        forall|i: int|
            0 <= i < wanted@.len() ==> #[trigger] fit.0@[i] as int == spec_segments(wanted@, width as int)[i],
        fit.1 as int == width - spec_sum(spec_segments(wanted@, width as int)),
        spec_sum(spec_segments(wanted@, width as int)) + fit.1 == width,
{
    let mut counts: Vec<usize> = Vec::new();
    let mut used: usize = 0;
    let mut i: usize = 0;
    while i < wanted.len()
        invariant
            0 <= i <= wanted.len(),
            counts@.len() == i,
            forall|j: int|
                0 <= j < i ==> #[trigger] counts@[j] as int == spec_segments(
                    wanted@.take(i as int),
                    width as int,
                )[j],
            used as int == spec_sum(spec_segments(wanted@.take(i as int), width as int)),
            used <= width,
        decreases wanted.len() - i,
    {
        proof {
            lemma_segments_fit(wanted@.take(i as int), width as int);
            lemma_segments_fit(wanted@.take(i + 1), width as int);
            assert(wanted@.take(i + 1).drop_last() =~= wanted@.take(i as int));
        }
        let free = width - used;
        let want = wanted[i];
        let c = if want <= free { want } else { free };
        let ghost old_counts = counts@;
        counts.push(c);
        used = used + c;
        i = i + 1;
        proof {
            let prev = spec_segments(wanted@.take(i - 1), width as int);
            let cur = spec_segments(wanted@.take(i as int), width as int);
            assert(cur.drop_last() =~= prev);
            assert forall|j: int| 0 <= j < i implies #[trigger] counts@[j] as int == cur[j] by {
                if j < i - 1 {
                    assert(counts@[j] == old_counts[j]);
                    assert(cur[j] == prev[j]);
                }
            }
        }
    }
    proof {
        assert(wanted@.take(wanted@.len() as int) =~= wanted@);
    }
    (counts, width - used)
}


/// How the summary judges the number of long tasks.
#[derive(Clone, Copy, PartialEq, Eq, Structural, Debug)]
pub enum LongTaskVerdict {
    /// More than twenty.
    HeavilyBlocked,
    /// Six to twenty.
    Several,
    /// One to five.
    Minor,
    /// None.
    NoneDetected,
}

pub open spec fn spec_long_task_verdict(count: usize) -> LongTaskVerdict {
    if count > 20 {
        LongTaskVerdict::HeavilyBlocked
    } else if count > 5 {
        LongTaskVerdict::Several
    } else if count > 0 {
        LongTaskVerdict::Minor
    } else {
        LongTaskVerdict::NoneDetected
    }
}

pub fn long_task_verdict(count: usize) -> (v: LongTaskVerdict)
    ensures
        v == spec_long_task_verdict(count),
{
    if count > 20 {
        LongTaskVerdict::HeavilyBlocked
    } else if count > 5 {
        LongTaskVerdict::Several
    } else if count > 0 {
        LongTaskVerdict::Minor
    } else {
        LongTaskVerdict::NoneDetected
    }
}

pub open spec fn spec_verdict_text(v: LongTaskVerdict) -> Seq<char> {
    match v {
        LongTaskVerdict::HeavilyBlocked => "!! Heavily blocked"@,
        LongTaskVerdict::Several => "! Several detected"@,
        LongTaskVerdict::Minor => "Minor occurrences"@,
        LongTaskVerdict::NoneDetected => "None detected"@,
    }
}

impl LongTaskVerdict {
    /// The words shown next to the long-task count.
    pub fn text(&self) -> (t: &'static str)
        ensures
            t@ == spec_verdict_text(*self),
    {
        match self {
            LongTaskVerdict::HeavilyBlocked => "!! Heavily blocked",
            LongTaskVerdict::Several => "! Several detected",
            LongTaskVerdict::Minor => "Minor occurrences",
            LongTaskVerdict::NoneDetected => "None detected",
        }
    }
}


/// Most findings the viewer's findings panel lists.
pub const PANEL_FINDINGS: usize = 5;

/// The marker of a finding in the viewer's findings panel.
pub open spec fn spec_panel_icon(s: FindingSeverity) -> Seq<char> {
    match s {
        FindingSeverity::Improved => "  +"@,
        FindingSeverity::Regressed => "  !"@,
        FindingSeverity::Neutral => "  ="@,
    }
}

pub fn panel_icon(s: FindingSeverity) -> (icon: &'static str)
    ensures
        icon@ == spec_panel_icon(s),
{
    match s {
        FindingSeverity::Improved => "  +",
        FindingSeverity::Regressed => "  !",
        FindingSeverity::Neutral => "  =",
    }
}

/// The category of a finding as the panel shows it: ` <category>: `.
pub open spec fn spec_panel_category(category: Seq<char>) -> Seq<char> {
    " "@ + category + ": "@
}

pub fn panel_category(category: &str) -> (text: String)
    ensures
        text@ == spec_panel_category(category@),
{
    let mut t = String::new();
    t.append(" ");
    t.append(category);
    t.append(": ");
    proof {
        assert(t@ =~= spec_panel_category(category@));
    }
    t
}

/// The detail of a finding in parentheses, or nothing when it has none.
pub open spec fn spec_panel_detail(detail: Seq<char>) -> Option<Seq<char>> {
    if detail.len() == 0 {
        None
    } else {
        Some("  ("@ + detail + ")"@)
    }
}

pub fn panel_detail(detail: &str) -> (text: Option<String>)
    ensures
        match text {
            Some(t) => spec_panel_detail(detail@) == Some(t@),
            None => spec_panel_detail(detail@) is None,
        },
{
    if detail.is_empty() {
        None
    } else {
        let mut t = String::new();
        t.append("  (");
        t.append(detail);
        t.append(")");
        proof {
            assert(t@ =~= "  ("@ + detail@ + ")"@);
        }
        Some(t)
    }
}

/// The digit keys pick the tabs whose titles carry those digits: ` 1 Summary `,
/// ` 2 Scroll Frames `, ` 3 CPU Profile `, ` 4 Layout Dirty ` and, with a
/// second trace, ` 5 Compare `.
pub proof fn lemma_digit_keys_match_titles(has_compare: bool, t: Tab, ctrl: bool)
    requires
        spec_tab_exists(has_compare, t),
    ensures
        spec_tab_title(0, spec_key_tab(has_compare, t, Key { code: KeyCode::Char('1'), ctrl })) == " 1 Summary "@,
        spec_tab_title(1, spec_key_tab(has_compare, t, Key { code: KeyCode::Char('2'), ctrl })) == " 2 Scroll Frames "@,
        spec_tab_title(2, spec_key_tab(has_compare, t, Key { code: KeyCode::Char('3'), ctrl })) == " 3 CPU Profile "@,
        spec_tab_title(3, spec_key_tab(has_compare, t, Key { code: KeyCode::Char('4'), ctrl })) == " 4 Layout Dirty "@,
        has_compare ==> spec_tab_title(4, spec_key_tab(has_compare, t, Key { code: KeyCode::Char('5'), ctrl }))
            == " 5 Compare "@,
{
    reveal_strlit(" 1 Summary ");
    reveal_strlit(" 2 Scroll Frames ");
    reveal_strlit(" 3 CPU Profile ");
    reveal_strlit(" 4 Layout Dirty ");
    reveal_strlit(" 5 Compare ");
    reveal_strlit(" ");
    reveal_strlit("Summary");
    reveal_strlit("Scroll Frames");
    reveal_strlit("CPU Profile");
    reveal_strlit("Layout Dirty");
    reveal_strlit("Compare");
    assert(spec_key_tab(has_compare, t, Key { code: KeyCode::Char('1'), ctrl }) == Tab::Summary);
    assert(spec_key_tab(has_compare, t, Key { code: KeyCode::Char('2'), ctrl }) == Tab::ScrollFrames);
    assert(spec_tab_title(0, Tab::Summary) =~= " 1 Summary "@);
    assert(spec_tab_title(1, Tab::ScrollFrames) =~= " 2 Scroll Frames "@);
    assert(spec_tab_title(2, Tab::CpuProfile) =~= " 3 CPU Profile "@);
    assert(spec_tab_title(3, Tab::LayoutDirty) =~= " 4 Layout Dirty "@);
    assert(spec_tab_title(4, Tab::Compare) =~= " 5 Compare "@);
}

} // verus!
