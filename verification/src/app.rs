use vstd::prelude::*;

verus! {

/// The views of the viewer, in the order in which they are shown.
#[derive(Clone, Copy, PartialEq, Eq, Structural, Debug)]
pub enum Tab {
    Summary,
    ScrollFrames,
    CpuProfile,
    LayoutDirty,
    Compare,
}

/// The tabs that exist: the four single-trace views, then `Compare` when a
/// second trace was loaded.
pub open spec fn spec_all_tabs(has_compare: bool) -> Seq<Tab> {
    let base = seq![Tab::Summary, Tab::ScrollFrames, Tab::CpuProfile, Tab::LayoutDirty];
    if has_compare {
        base.push(Tab::Compare)
    } else {
        base
    }
}

/// The title shown for a tab.
pub open spec fn spec_label(t: Tab) -> Seq<char> {
    match t {
        Tab::Summary => "Summary"@,
        Tab::ScrollFrames => "Scroll Frames"@,
        Tab::CpuProfile => "CPU Profile"@,
        Tab::LayoutDirty => "Layout Dirty"@,
        Tab::Compare => "Compare"@,
    }
}

impl Tab {
    pub fn all(has_compare: bool) -> (tabs: Vec<Tab>)
        ensures
            tabs@ == spec_all_tabs(has_compare),
    {
        let mut tabs: Vec<Tab> = Vec::new();
        tabs.push(Tab::Summary);
        tabs.push(Tab::ScrollFrames);
        tabs.push(Tab::CpuProfile);
        tabs.push(Tab::LayoutDirty);
        if has_compare {
            tabs.push(Tab::Compare);
        }
        tabs
    }

    pub fn label(&self) -> (label: &'static str)
        ensures
            label@ == spec_label(*self),
    {
        match self {
            Tab::Summary => "Summary",
            Tab::ScrollFrames => "Scroll Frames",
            Tab::CpuProfile => "CPU Profile",
            Tab::LayoutDirty => "Layout Dirty",
            Tab::Compare => "Compare",
        }
    }
}


/// Number of tabs that exist.
pub open spec fn spec_tab_count(has_compare: bool) -> int {
    if has_compare { 5 } else { 4 }
}

/// Place of a tab in the tab bar.
pub open spec fn spec_tab_position(t: Tab) -> int {
    match t {
        Tab::Summary => 0,
        Tab::ScrollFrames => 1,
        Tab::CpuProfile => 2,
        Tab::LayoutDirty => 3,
        Tab::Compare => 4,
    }
}

/// The tab that follows `t`, wrapping around after the last one.
pub open spec fn spec_next_tab(has_compare: bool, t: Tab) -> Tab {
    spec_all_tabs(has_compare)[(spec_tab_position(t) + 1) % spec_tab_count(has_compare)]
}

/// The tab that precedes `t`, wrapping around before the first one.
pub open spec fn spec_prev_tab(has_compare: bool, t: Tab) -> Tab {
    let p = spec_tab_position(t);
    if p == 0 {
        spec_all_tabs(has_compare)[spec_tab_count(has_compare) - 1]
    } else {
        spec_all_tabs(has_compare)[p - 1]
    }
}

/// Whether `t` is one of the tabs that exist.
pub open spec fn spec_tab_exists(has_compare: bool, t: Tab) -> bool {
    spec_all_tabs(has_compare).contains(t)
}

pub proof fn lemma_all_tabs_positions(has_compare: bool)
    ensures
        spec_all_tabs(has_compare).len() == spec_tab_count(has_compare),
        forall|i: int|
            0 <= i < spec_tab_count(has_compare) ==> spec_tab_position(
                #[trigger] spec_all_tabs(has_compare)[i],
            ) == i,
        forall|t: Tab|
            #[trigger] spec_tab_exists(has_compare, t) <==> (0 <= spec_tab_position(t)
                < spec_tab_count(has_compare)),
        forall|t: Tab|
            spec_tab_exists(has_compare, t) ==> spec_all_tabs(has_compare)[spec_tab_position(t)]
                == t,
{
    let s = spec_all_tabs(has_compare);
    assert(s[0] == Tab::Summary);
    assert(s[1] == Tab::ScrollFrames);
    assert(s[2] == Tab::CpuProfile);
    assert(s[3] == Tab::LayoutDirty);
    if has_compare {
        assert(s[4] == Tab::Compare);
    }
    assert forall|t: Tab| (0 <= spec_tab_position(t) < spec_tab_count(has_compare)) implies #[trigger] spec_tab_exists(has_compare, t) by {
        assert(s[spec_tab_position(t)] == t);
    }
    assert forall|t: Tab| #[trigger] spec_tab_exists(has_compare, t) implies (0 <= spec_tab_position(t) < spec_tab_count(has_compare)) by {
        let i = choose|i: int| 0 <= i < s.len() && s[i] == t;
        assert(spec_tab_position(s[i]) == i);
    }
}

/// Lengths of the lists shown in each tab, which decide how far a tab can
/// be scrolled.
#[derive(Clone, Copy, PartialEq, Eq, Structural, Debug)]
pub struct RowCounts {
    /// Rows of the per-event statistics table.
    pub event_stats: usize,
    /// Scroll tasks.
    pub scroll_tasks: usize,
    /// Functions of the CPU profile.
    pub cpu_functions: usize,
    /// Layout events with dirty-object data.
    pub layout_entries: usize,
    /// Rows of the comparison table, when a second trace was loaded.
    pub compare_rows: Option<usize>,
}

/// Rows of the scrollable table of a tab: the event statistics, the scroll
/// tasks, the profiled functions, the layout events or the per-event
/// comparison.
pub open spec fn spec_row_count(rows: RowCounts, t: Tab) -> int {
    match t {
        Tab::Summary => rows.event_stats as int,
        Tab::ScrollFrames => rows.scroll_tasks as int,
        Tab::CpuProfile => rows.cpu_functions as int,
        Tab::LayoutDirty => rows.layout_entries as int,
        Tab::Compare => match rows.compare_rows {
            Some(n) => n as int,
            None => 0,
        },
    }
}

/// Scroll position after moving down `amount` rows (stopping at the largest
/// `usize`).
pub open spec fn spec_scroll_down(offset: usize, amount: usize) -> usize {
    if offset + amount <= usize::MAX {
        (offset + amount) as usize
    } else {
        usize::MAX
    }
}

/// Scroll position after moving up `amount` rows (stopping at the top).
pub open spec fn spec_scroll_up(offset: usize, amount: usize) -> usize {
    if offset >= amount {
        (offset - amount) as usize
    } else {
        0
    }
}

/// The navigation state of the trace viewer.
pub struct App {
    pub tab: Tab,
    pub tabs: Vec<Tab>,
    pub scroll_offset: usize,
    pub should_quit: bool,
    pub status_message: Option<String>,
    pub rows: RowCounts,
}

impl App {
    pub open spec fn has_compare(&self) -> bool {
        self.rows.compare_rows is Some
    }

    /// Well-formedness: the tab bar is that of `Tab::all` and the current tab
    /// is on it.
    pub open spec fn wf(&self) -> bool {
        &&& self.tabs@ == spec_all_tabs(self.has_compare())
        &&& spec_tab_exists(self.has_compare(), self.tab)
    }

    pub fn new(rows: RowCounts) -> (app: App)
        ensures
            app.wf(),
            app.tab == Tab::Summary,
            app.tabs@ == spec_all_tabs(rows.compare_rows is Some),
            app.scroll_offset == 0,
            !app.should_quit,
            app.status_message is None,
            app.rows == rows,
    {
        let tabs = Tab::all(rows.compare_rows.is_some());
        proof {
            lemma_all_tabs_positions(rows.compare_rows is Some);
            assert(spec_tab_exists(rows.compare_rows is Some, Tab::Summary));
        }
        App {
            tab: Tab::Summary,
            tabs,
            scroll_offset: 0,
            should_quit: false,
            status_message: None,
            rows,
        }
    }

    /// Index of the current tab on the tab bar (0 when it is not there).
    fn current_index(&self) -> (idx: usize)
        requires
            self.wf(),
        ensures
            idx == spec_tab_position(self.tab),
    {
        proof {
            lemma_all_tabs_positions(self.has_compare());
        }
        let mut i: usize = 0;
        while i < self.tabs.len()
            invariant
                self.wf(),
                0 <= i <= self.tabs.len(),
                self.tabs@.len() == spec_tab_count(self.has_compare()),
                forall|j: int| 0 <= j < i ==> self.tabs@[j] != self.tab,
                spec_tab_position(self.tab) >= i,
                forall|k: int|
                    0 <= k < spec_tab_count(self.has_compare()) ==> spec_tab_position(
                        #[trigger] spec_all_tabs(self.has_compare())[k],
                    ) == k,
            decreases self.tabs.len() - i,
        {
            if self.tabs[i] == self.tab {
                return i;
            }
            i = i + 1;
        }
        0
    }

    pub fn next_tab(&mut self)
        requires
            old(self).wf(),
        ensures
            final(self).wf(),
            final(self).tab == spec_next_tab(old(self).has_compare(), old(self).tab),
            final(self).scroll_offset == 0,
            final(self).tabs == old(self).tabs,
            final(self).rows == old(self).rows,
            final(self).should_quit == old(self).should_quit,
            final(self).status_message == old(self).status_message,
    {
        let idx = self.current_index();
        proof {
            lemma_all_tabs_positions(self.has_compare());
        }
        let n = self.tabs.len();
        let t = self.tabs[(idx + 1) % n];
        self.tab = t;
        self.scroll_offset = 0;
    }

    pub fn prev_tab(&mut self)
        requires
            old(self).wf(),
        ensures
            final(self).wf(),
            final(self).tab == spec_prev_tab(old(self).has_compare(), old(self).tab),
            final(self).scroll_offset == 0,
            final(self).tabs == old(self).tabs,
            final(self).rows == old(self).rows,
            final(self).should_quit == old(self).should_quit,
            final(self).status_message == old(self).status_message,
    {
        let idx = self.current_index();
        proof {
            lemma_all_tabs_positions(self.has_compare());
        }
        let t = if idx == 0 {
            self.tabs[self.tabs.len() - 1]
        } else {
            self.tabs[idx - 1]
        };
        self.tab = t;
        self.scroll_offset = 0;
    }

    pub fn scroll_down(&mut self, amount: usize)
        ensures
            final(self).scroll_offset == spec_scroll_down(old(self).scroll_offset, amount),
            final(self).tab == old(self).tab,
            final(self).tabs == old(self).tabs,
            final(self).rows == old(self).rows,
            final(self).should_quit == old(self).should_quit,
            final(self).status_message == old(self).status_message,
    {
        self.scroll_offset = self.scroll_offset.saturating_add(amount);
    }

    pub fn scroll_up(&mut self, amount: usize)
        ensures
            final(self).scroll_offset == spec_scroll_up(old(self).scroll_offset, amount),
            final(self).tab == old(self).tab,
            final(self).tabs == old(self).tabs,
            final(self).rows == old(self).rows,
            final(self).should_quit == old(self).should_quit,
            final(self).status_message == old(self).status_message,
    {
        self.scroll_offset = self.scroll_offset.saturating_sub(amount);
    }

    pub fn set_message(&mut self, msg: String)
        ensures
            final(self).status_message == Some(msg),
            final(self).tab == old(self).tab,
            final(self).tabs == old(self).tabs,
            final(self).rows == old(self).rows,
            final(self).scroll_offset == old(self).scroll_offset,
            final(self).should_quit == old(self).should_quit,
    {
        self.status_message = Some(msg);
    }

    pub fn row_count(&self) -> (n: usize)
        requires
            self.wf(),
        ensures
            n == spec_row_count(self.rows, self.tab),
    {
        match self.tab {
            Tab::Summary => self.rows.event_stats,
            Tab::ScrollFrames => self.rows.scroll_tasks,
            Tab::CpuProfile => self.rows.cpu_functions,
            Tab::LayoutDirty => self.rows.layout_entries,
            Tab::Compare => match self.rows.compare_rows {
                Some(n) => n,
                None => 0,
            },
        }
    }
}


/// A key as the viewer sees it.
#[derive(Clone, Copy, PartialEq, Eq, Structural, Debug)]
pub enum KeyCode {
    Char(char),
    Esc,
    Tab,
    BackTab,
    Up,
    Down,
    Other,
}

/// A key press: the key and whether Control was held.
#[derive(Clone, Copy, PartialEq, Eq, Structural, Debug)]
pub struct Key {
    pub code: KeyCode,
    pub ctrl: bool,
}

/// What the caller must do after a key press, beyond the state change.
#[derive(Clone, Copy, PartialEq, Eq, Structural, Debug)]
pub enum KeyAction {
    /// Nothing more.
    Nothing,
    /// Write the Markdown report to a file and report the outcome with
    /// `set_message`.
    Export,
    /// Switch the CPU-throttle display.
    ToggleThrottle,
}

/// Keys that end the viewer.
pub open spec fn spec_is_quit_key(key: Key) -> bool {
    ||| key.code == KeyCode::Char('q')
    ||| key.code == KeyCode::Esc
    ||| (key.code == KeyCode::Char('c') && key.ctrl)
}

/// Tab index selected by a digit key (`'1'` selects the first tab).
pub open spec fn spec_digit_index(key: Key) -> Option<int> {
    match key.code {
        KeyCode::Char('1') => Some(0),
        KeyCode::Char('2') => Some(1),
        KeyCode::Char('3') => Some(2),
        KeyCode::Char('4') => Some(3),
        KeyCode::Char('5') => Some(4),
        _ => None,
    }
}

/// Whether a key moves to another tab (and so resets the scroll position).
pub open spec fn spec_key_switches_tab(has_compare: bool, key: Key) -> bool {
    ||| key.code == KeyCode::Tab
    ||| key.code == KeyCode::BackTab
    ||| match spec_digit_index(key) {
        Some(i) => i < spec_tab_count(has_compare),
        None => false,
    }
}

/// Tab shown after a key press, when no status message is pending.
pub open spec fn spec_key_tab(has_compare: bool, t: Tab, key: Key) -> Tab {
    if spec_is_quit_key(key) {
        t
    } else if key.code == KeyCode::Tab {
        spec_next_tab(has_compare, t)
    } else if key.code == KeyCode::BackTab {
        spec_prev_tab(has_compare, t)
    } else {
        match spec_digit_index(key) {
            Some(i) => if i < spec_tab_count(has_compare) {
                spec_all_tabs(has_compare)[i]
            } else {
                t
            },
            None => t,
        }
    }
}

/// Scroll position after a key press, when no status message is pending.
pub open spec fn spec_key_scroll(has_compare: bool, rows: RowCounts, t: Tab, offset: usize, key: Key) -> int {
    if spec_is_quit_key(key) {
        offset as int
    } else if spec_key_switches_tab(has_compare, key) {
        0
    } else if key.code == KeyCode::Char('j') || key.code == KeyCode::Down {
        spec_scroll_down(offset, 1) as int
    } else if key.code == KeyCode::Char('k') || key.code == KeyCode::Up {
        spec_scroll_up(offset, 1) as int
    } else if key.code == KeyCode::Char('d') && key.ctrl {
        spec_scroll_down(offset, 20) as int
    } else if key.code == KeyCode::Char('u') && key.ctrl {
        spec_scroll_up(offset, 20) as int
    } else if key.code == KeyCode::Char('g') {
        0
    } else if key.code == KeyCode::Char('G') {
        let n = spec_row_count(rows, t);
        if n >= 1 { n - 1 } else { 0 }
    } else {
        offset as int
    }
}

/// The request that a key press hands back, when no status message is pending.
pub open spec fn spec_key_action(key: Key) -> KeyAction {
    if key.code == KeyCode::Char('e') {
        KeyAction::Export
    } else if key.code == KeyCode::Char('t') {
        KeyAction::ToggleThrottle
    } else {
        KeyAction::Nothing
    }
}

impl App {
    /// Applies one key press. A pending status message is dismissed by any
    /// key, and that key does nothing else.
    pub fn handle_key(&mut self, key: Key) -> (action: KeyAction)
        requires
            old(self).wf(),
        ensures
            final(self).wf(),
            final(self).tabs == old(self).tabs,
            final(self).rows == old(self).rows,
            final(self).status_message is None,
            old(self).status_message is Some ==> {
                &&& action == KeyAction::Nothing
                &&& final(self).tab == old(self).tab
                &&& final(self).scroll_offset == old(self).scroll_offset
                &&& final(self).should_quit == old(self).should_quit
            },
            old(self).status_message is None ==> {
                &&& action == spec_key_action(key)
                &&& final(self).tab == spec_key_tab(old(self).has_compare(), old(self).tab, key)
                &&& final(self).scroll_offset == spec_key_scroll(
                    old(self).has_compare(),
                    old(self).rows,
                    old(self).tab,
                    old(self).scroll_offset,
                    key,
                )
                &&& final(self).should_quit == (old(self).should_quit || spec_is_quit_key(key))
            },
    {
        if self.status_message.is_some() {
            self.status_message = None;
            return KeyAction::Nothing;
        }
        proof {
            lemma_all_tabs_positions(self.has_compare());
        }
        let ctrl = key.ctrl;
        match key.code {
            KeyCode::Char('q') | KeyCode::Esc => {
                self.should_quit = true;
                KeyAction::Nothing
            },
            KeyCode::Char('c') if ctrl => {
                self.should_quit = true;
                KeyAction::Nothing
            },
            KeyCode::Char('e') => KeyAction::Export,
            KeyCode::Tab => {
                self.next_tab();
                KeyAction::Nothing
            },
            KeyCode::BackTab => {
                self.prev_tab();
                KeyAction::Nothing
            },
            KeyCode::Char('t') => KeyAction::ToggleThrottle,
            KeyCode::Char('j') | KeyCode::Down => {
                self.scroll_down(1);
                KeyAction::Nothing
            },
            KeyCode::Char('k') | KeyCode::Up => {
                self.scroll_up(1);
                KeyAction::Nothing
            },
            KeyCode::Char('d') if ctrl => {
                self.scroll_down(20);
                KeyAction::Nothing
            },
            KeyCode::Char('u') if ctrl => {
                self.scroll_up(20);
                KeyAction::Nothing
            },
            KeyCode::Char('g') => {
                self.scroll_offset = 0;
                KeyAction::Nothing
            },
            KeyCode::Char('G') => {
                let max = self.row_count().saturating_sub(1);
                self.scroll_offset = max;
                KeyAction::Nothing
            },
            KeyCode::Char('1') => {
                self.select_tab(0);
                KeyAction::Nothing
            },
            KeyCode::Char('2') => {
                self.select_tab(1);
                KeyAction::Nothing
            },
            KeyCode::Char('3') => {
                self.select_tab(2);
                KeyAction::Nothing
            },
            KeyCode::Char('4') => {
                self.select_tab(3);
                KeyAction::Nothing
            },
            KeyCode::Char('5') => {
                self.select_tab(4);
                KeyAction::Nothing
            },
            _ => KeyAction::Nothing,
        }
    }

    /// Moves to the tab at `idx` on the tab bar, when there is one.
    fn select_tab(&mut self, idx: usize)
        requires
            old(self).wf(),
        ensures
            final(self).wf(),
            idx < old(self).tabs@.len() ==> final(self).tab == old(self).tabs@[idx as int]
                && final(self).scroll_offset == 0,
            idx >= old(self).tabs@.len() ==> final(self).tab == old(self).tab
                && final(self).scroll_offset == old(self).scroll_offset,
            final(self).tabs == old(self).tabs,
            final(self).rows == old(self).rows,
            final(self).should_quit == old(self).should_quit,
            final(self).status_message == old(self).status_message,
    {
        proof {
            lemma_all_tabs_positions(self.has_compare());
        }
        if idx < self.tabs.len() {
            self.tab = self.tabs[idx];
            self.scroll_offset = 0;
            proof {
                assert(spec_tab_position(self.tabs@[idx as int]) == idx);
            }
        }
    }
}


/// `n` presses of Tab starting from `t`.
pub open spec fn spec_next_tab_n(has_compare: bool, t: Tab, n: nat) -> Tab
    decreases n,
{
    if n == 0 {
        t
    } else {
        spec_next_tab(has_compare, spec_next_tab_n(has_compare, t, (n - 1) as nat))
    }
}

/// Tab and Shift+Tab undo each other: from any tab that exists, moving to
/// the next tab and back, or to the previous tab and back, returns to it.
pub proof fn lemma_next_prev_inverse(has_compare: bool, t: Tab)
    requires
        spec_tab_exists(has_compare, t),
    ensures
        spec_prev_tab(has_compare, spec_next_tab(has_compare, t)) == t,
        spec_next_tab(has_compare, spec_prev_tab(has_compare, t)) == t,
        spec_tab_exists(has_compare, spec_next_tab(has_compare, t)),
        spec_tab_exists(has_compare, spec_prev_tab(has_compare, t)),
{
    lemma_all_tabs_positions(has_compare);
    let c = spec_tab_count(has_compare);
    let p = spec_tab_position(t);
    let s = spec_all_tabs(has_compare);
    assert(spec_tab_exists(has_compare, s[(p + 1) % c]));
    if p == 0 {
        assert(spec_tab_exists(has_compare, s[c - 1]));
    } else {
        assert(spec_tab_exists(has_compare, s[p - 1]));
    }
}

/// Pressing Tab once per existing tab comes back to the starting tab.
pub proof fn lemma_next_tab_cycles(has_compare: bool, t: Tab)
    requires
        spec_tab_exists(has_compare, t),
    ensures
        spec_next_tab_n(has_compare, t, spec_tab_count(has_compare) as nat) == t,
{
    lemma_all_tabs_positions(has_compare);
    let c = spec_tab_count(has_compare);
    assert forall|k: nat| k <= c implies spec_tab_position(#[trigger] spec_next_tab_n(has_compare, t, k))
        == (spec_tab_position(t) + k) % c && spec_tab_exists(has_compare, spec_next_tab_n(has_compare, t, k)) by {
        lemma_next_tab_n_position(has_compare, t, k);
    }
    assert(spec_tab_position(spec_next_tab_n(has_compare, t, c as nat)) == spec_tab_position(t));
    let u = spec_next_tab_n(has_compare, t, c as nat);
    assert(spec_all_tabs(has_compare)[spec_tab_position(u)] == u);
}

proof fn lemma_next_tab_n_position(has_compare: bool, t: Tab, k: nat)
    requires
        spec_tab_exists(has_compare, t),
    ensures
        spec_tab_position(spec_next_tab_n(has_compare, t, k)) == (spec_tab_position(t) + k)
            % spec_tab_count(has_compare),
        spec_tab_exists(has_compare, spec_next_tab_n(has_compare, t, k)),
    decreases k,
{
    lemma_all_tabs_positions(has_compare);
    let c = spec_tab_count(has_compare);
    if k == 0 {
        assert((spec_tab_position(t) + 0) % c == spec_tab_position(t));
    } else {
        lemma_next_tab_n_position(has_compare, t, (k - 1) as nat);
        let u = spec_next_tab_n(has_compare, t, (k - 1) as nat);
        lemma_next_prev_inverse(has_compare, u);
        let p = spec_tab_position(t);
        assert(((p + k - 1) % c + 1) % c == (p + k) % c) by (nonlinear_arith)
            requires c > 0, p >= 0, k >= 1;
    }
}


/// Scrolling down and then up by the same amount returns to the starting
/// row, unless the scroll position hit its upper bound on the way down.
pub proof fn lemma_scroll_down_up(offset: usize, amount: usize)
    requires
        offset + amount <= usize::MAX,
    ensures
        spec_scroll_up(spec_scroll_down(offset, amount), amount) == offset,
{
}

/// Every key that lands on another tab puts the view back at its first row,
/// and no key leaves the tab bar.
pub proof fn lemma_tab_change_resets_scroll(has_compare: bool, rows: RowCounts, t: Tab, offset: usize, key: Key)
    requires
        spec_tab_exists(has_compare, t),
    ensures
        spec_tab_exists(has_compare, spec_key_tab(has_compare, t, key)),
        spec_key_tab(has_compare, t, key) != t ==> spec_key_scroll(has_compare, rows, t, offset, key) == 0,
{
    lemma_all_tabs_positions(has_compare);
    lemma_next_prev_inverse(has_compare, t);
    match spec_digit_index(key) {
        Some(i) => {
            if i < spec_tab_count(has_compare) {
                assert(spec_tab_exists(has_compare, spec_all_tabs(has_compare)[i]));
            }
        },
        None => {},
    }
}


/// The tab bar, left to right: Summary, Scroll Frames, CPU Profile, Layout
/// Dirty, then Compare when a second trace is loaded.
pub proof fn lemma_tab_bar_order(has_compare: bool)
    ensures
        spec_all_tabs(has_compare).len() == if has_compare { 5int } else { 4int },
        spec_all_tabs(has_compare)[0] == Tab::Summary,
        spec_all_tabs(has_compare)[1] == Tab::ScrollFrames,
        spec_all_tabs(has_compare)[2] == Tab::CpuProfile,
        spec_all_tabs(has_compare)[3] == Tab::LayoutDirty,
        has_compare ==> spec_all_tabs(has_compare)[4] == Tab::Compare,
{
}

/// Digit keys jump to the tab with that number on the bar (`1` is the
/// first), with the view at its first row; `5` does nothing without a
/// second trace. Control does not change this.
pub proof fn lemma_digit_keys_select_tabs(
    has_compare: bool,
    rows: RowCounts,
    t: Tab,
    offset: usize,
    ctrl: bool,
)
    requires
        spec_tab_exists(has_compare, t),
    ensures
        spec_key_tab(has_compare, t, Key { code: KeyCode::Char('1'), ctrl }) == Tab::Summary,
        spec_key_tab(has_compare, t, Key { code: KeyCode::Char('2'), ctrl }) == Tab::ScrollFrames,
        spec_key_tab(has_compare, t, Key { code: KeyCode::Char('3'), ctrl }) == Tab::CpuProfile,
        spec_key_tab(has_compare, t, Key { code: KeyCode::Char('4'), ctrl }) == Tab::LayoutDirty,
        has_compare ==> spec_key_tab(has_compare, t, Key { code: KeyCode::Char('5'), ctrl })
            == Tab::Compare,
        !has_compare ==> spec_key_tab(has_compare, t, Key { code: KeyCode::Char('5'), ctrl }) == t,
        spec_key_scroll(has_compare, rows, t, offset, Key { code: KeyCode::Char('1'), ctrl }) == 0,
        spec_key_scroll(has_compare, rows, t, offset, Key { code: KeyCode::Char('4'), ctrl }) == 0,
        !has_compare ==> spec_key_scroll(has_compare, rows, t, offset, Key { code: KeyCode::Char('5'), ctrl })
            == offset,
        forall|c: char|
            '1' <= c <= '5' && (c as int) - ('1' as int) < spec_all_tabs(has_compare).len() ==> #[trigger] spec_key_tab(
                has_compare,
                t,
                Key { code: KeyCode::Char(c), ctrl },
            ) == spec_all_tabs(has_compare)[(c as int) - ('1' as int)],
{
    lemma_all_tabs_positions(has_compare);
    assert forall|c: char|
        '1' <= c <= '5' && (c as int) - ('1' as int) < spec_all_tabs(has_compare).len() implies #[trigger] spec_key_tab(
            has_compare,
            t,
            Key { code: KeyCode::Char(c), ctrl },
        ) == spec_all_tabs(has_compare)[(c as int) - ('1' as int)] by {
        if c == '1' {
        } else if c == '2' {
        } else if c == '3' {
        } else if c == '4' {
        } else {
            assert(c == '5');
        }
    }
}

/// What each key does to the scroll position, on any tab: `j`/Down one row
/// down, `k`/Up one row up (not above the top), Ctrl+d twenty down,
/// Ctrl+u twenty up, `g` to the top, `G` to the last row of the tab's table
/// (the top when it is empty).
pub proof fn lemma_scroll_keys(has_compare: bool, rows: RowCounts, t: Tab, offset: usize, ctrl: bool)
    requires
        spec_tab_exists(has_compare, t),
        offset + 20 <= usize::MAX,
    ensures
        spec_key_scroll(has_compare, rows, t, offset, Key { code: KeyCode::Char('j'), ctrl }) == offset + 1,
        spec_key_scroll(has_compare, rows, t, offset, Key { code: KeyCode::Down, ctrl }) == offset + 1,
        spec_key_scroll(has_compare, rows, t, offset, Key { code: KeyCode::Char('k'), ctrl })
            == if offset > 0 { offset - 1 } else { 0 },
        spec_key_scroll(has_compare, rows, t, offset, Key { code: KeyCode::Up, ctrl })
            == if offset > 0 { offset - 1 } else { 0 },
        spec_key_scroll(has_compare, rows, t, offset, Key { code: KeyCode::Char('d'), ctrl: true }) == offset + 20,
        spec_key_scroll(has_compare, rows, t, offset, Key { code: KeyCode::Char('u'), ctrl: true })
            == if offset >= 20 { offset - 20 } else { 0 },
        spec_key_scroll(has_compare, rows, t, offset, Key { code: KeyCode::Char('d'), ctrl: false }) == offset,
        spec_key_scroll(has_compare, rows, t, offset, Key { code: KeyCode::Char('g'), ctrl }) == 0,
        ({
            let n: int = match t {
                Tab::Summary => rows.event_stats as int,
                Tab::ScrollFrames => rows.scroll_tasks as int,
                Tab::CpuProfile => rows.cpu_functions as int,
                Tab::LayoutDirty => rows.layout_entries as int,
                Tab::Compare => match rows.compare_rows {
                    Some(k) => k as int,
                    None => 0,
                },
            };
            spec_key_scroll(has_compare, rows, t, offset, Key { code: KeyCode::Char('G'), ctrl })
                == if n > 0 { n - 1 } else { 0 }
        }),
{
}

/// The other keys: `q`, Esc and Ctrl+c quit and nothing else; plain `c`
/// does nothing; `e` asks for an export and `t` for the throttle switch,
/// neither moving the view; Tab and Shift+Tab move one tab right and left
/// along the bar, wrapping around.
pub proof fn lemma_other_keys(has_compare: bool, rows: RowCounts, t: Tab, offset: usize, ctrl: bool)
    requires
        spec_tab_exists(has_compare, t),
    ensures
        spec_is_quit_key(Key { code: KeyCode::Char('q'), ctrl }),
        spec_is_quit_key(Key { code: KeyCode::Esc, ctrl }),
        spec_is_quit_key(Key { code: KeyCode::Char('c'), ctrl: true }),
        !spec_is_quit_key(Key { code: KeyCode::Char('c'), ctrl: false }),
        !spec_is_quit_key(Key { code: KeyCode::Char('e'), ctrl }),
        spec_key_tab(has_compare, t, Key { code: KeyCode::Char('q'), ctrl }) == t,
        spec_key_scroll(has_compare, rows, t, offset, Key { code: KeyCode::Char('q'), ctrl }) == offset,
        spec_key_action(Key { code: KeyCode::Char('e'), ctrl }) == KeyAction::Export,
        spec_key_action(Key { code: KeyCode::Char('t'), ctrl }) == KeyAction::ToggleThrottle,
        spec_key_action(Key { code: KeyCode::Char('q'), ctrl }) == KeyAction::Nothing,
        spec_key_action(Key { code: KeyCode::Tab, ctrl }) == KeyAction::Nothing,
        spec_key_tab(has_compare, t, Key { code: KeyCode::Char('e'), ctrl }) == t,
        spec_key_scroll(has_compare, rows, t, offset, Key { code: KeyCode::Char('e'), ctrl }) == offset,
        spec_key_tab(has_compare, t, Key { code: KeyCode::Char('t'), ctrl }) == t,
        spec_key_scroll(has_compare, rows, t, offset, Key { code: KeyCode::Char('t'), ctrl }) == offset,
        ({
            let bar = spec_all_tabs(has_compare);
            let n = bar.len() as int;
            let p = spec_tab_position(t);
            &&& bar[p] == t
            &&& spec_key_tab(has_compare, t, Key { code: KeyCode::Tab, ctrl }) == if p + 1 < n {
                bar[p + 1]
            } else {
                bar[0]
            }
            &&& spec_key_tab(has_compare, t, Key { code: KeyCode::BackTab, ctrl }) == if p > 0 {
                bar[p - 1]
            } else {
                bar[n - 1]
            }
            &&& spec_key_scroll(has_compare, rows, t, offset, Key { code: KeyCode::Tab, ctrl }) == 0
        }),
{
    lemma_all_tabs_positions(has_compare);
    let n = spec_tab_count(has_compare);
    let p = spec_tab_position(t);
    if p + 1 < n {
        assert((p + 1) % n == p + 1);
    } else {
        assert((p + 1) % n == 0);
    }
}

} // verus!
