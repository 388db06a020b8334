//! Help overlay: a fixed box of key bindings centred over the current view. Each
//! content line is split into runs — keys and descriptions alternate — so keys can
//! be coloured apart from their descriptions and section headings apart from both.

use vstd::prelude::*;

use crate::text::{chars_of, str_eq};
use crate::ui::layout::{Area, HELP_HEIGHT, HELP_WIDTH};
use crate::ui::theme::Role;

verus! {

broadcast use vstd::string::group_string_axioms;

/// Rows of the help box.
pub const BOX_ROWS: usize = 25;

/// The rows of the help box, top to bottom.
pub open spec fn box_line_spec(i: int) -> Seq<char> {
    if i == 0 {
        "┌─ help ─ ? or esc to close ───────────────────────────────────────────────┐"@
    } else if i == 1 || i == 9 || i == 18 || i == 23 {
        "│                                                                          │"@
    } else if i == 2 {
        "│  navigation                       chart grid                             │"@
    } else if i == 3 {
        "│  d         open detail            enter     chart selected               │"@
    } else if i == 4 {
        "│  esc       back to overview       tab       cycle pane focus             │"@
    } else if i == 5 {
        "│  /         search ticker          S-1..4    focus pane n                 │"@
    } else if i == 6 {
        "│  :         command mode           c         clear focused pane           │"@
    } else if i == 7 {
        "│  ?         toggle this help       C         clear all panes              │"@
    } else if i == 8 {
        "│  q         quit                   h / l     table <-> grid               │"@
    } else if i == 10 {
        "│  watchlist                        timeframes                             │"@
    } else if i == 11 {
        "│  j / k     move selection         1  2  3   1D    5D    1M               │"@
    } else if i == 12 {
        "│  g / G     jump top / bottom      4  5      6M    YTD                    │"@
    } else if i == 13 {
        "│  f         cycle filter           6  7      1Y    MAX                    │"@
    } else if i == 14 {
        "│  enter     chart this ticker                                             │"@
    } else if i == 15 {
        "│  s / S     sort / reverse                                                │"@
    } else if i == 16 {
        "│  x         remove symbol                                                 │"@
    } else if i == 17 {
        "│  r         refresh data                                                  │"@
    } else if i == 19 {
        "│  commands                                                                │"@
    } else if i == 20 {
        "│  :add <SYM>      add to watchlist   :tf <RANGE>      set timeframe       │"@
    } else if i == 21 {
        "│  :rm <SYM>       remove symbol      :export [path]   write JSON          │"@
    } else if i == 22 {
        "│  :detail <SYM>   open drilldown     :settings        open settings       │"@
    } else {
        "└──────────────────────────────────────────────────────────────────────────┘"@
    }
}

/// One row of the help box; every row is exactly `HELP_WIDTH` cells.
pub fn box_line(i: usize) -> (s: &'static str)
    requires
        i < BOX_ROWS,
    ensures
        s@ == box_line_spec(i as int),
        s@.len() == HELP_WIDTH,
{
    proof {
        reveal_strlit("┌─ help ─ ? or esc to close ───────────────────────────────────────────────┐");
        reveal_strlit("│                                                                          │");
        reveal_strlit("│  navigation                       chart grid                             │");
        reveal_strlit("│  d         open detail            enter     chart selected               │");
        reveal_strlit("│  esc       back to overview       tab       cycle pane focus             │");
        reveal_strlit("│  /         search ticker          S-1..4    focus pane n                 │");
        reveal_strlit("│  :         command mode           c         clear focused pane           │");
        reveal_strlit("│  ?         toggle this help       C         clear all panes              │");
        reveal_strlit("│  q         quit                   h / l     table <-> grid               │");
        reveal_strlit("│  watchlist                        timeframes                             │");
        reveal_strlit("│  j / k     move selection         1  2  3   1D    5D    1M               │");
        reveal_strlit("│  g / G     jump top / bottom      4  5      6M    YTD                    │");
        reveal_strlit("│  f         cycle filter           6  7      1Y    MAX                    │");
        reveal_strlit("│  enter     chart this ticker                                             │");
        reveal_strlit("│  s / S     sort / reverse                                                │");
        reveal_strlit("│  x         remove symbol                                                 │");
        reveal_strlit("│  r         refresh data                                                  │");
        reveal_strlit("│  commands                                                                │");
        reveal_strlit("│  :add <SYM>      add to watchlist   :tf <RANGE>      set timeframe       │");
        reveal_strlit("│  :rm <SYM>       remove symbol      :export [path]   write JSON          │");
        reveal_strlit("│  :detail <SYM>   open drilldown     :settings        open settings       │");
        reveal_strlit("└──────────────────────────────────────────────────────────────────────────┘");
    }
    if i == 0 {
        "┌─ help ─ ? or esc to close ───────────────────────────────────────────────┐"
    } else if i == 1 || i == 9 || i == 18 || i == 23 {
        "│                                                                          │"
    } else if i == 2 {
        "│  navigation                       chart grid                             │"
    } else if i == 3 {
        "│  d         open detail            enter     chart selected               │"
    } else if i == 4 {
        "│  esc       back to overview       tab       cycle pane focus             │"
    } else if i == 5 {
        "│  /         search ticker          S-1..4    focus pane n                 │"
    } else if i == 6 {
        "│  :         command mode           c         clear focused pane           │"
    } else if i == 7 {
        "│  ?         toggle this help       C         clear all panes              │"
    } else if i == 8 {
        "│  q         quit                   h / l     table <-> grid               │"
    } else if i == 10 {
        "│  watchlist                        timeframes                             │"
    } else if i == 11 {
        "│  j / k     move selection         1  2  3   1D    5D    1M               │"
    } else if i == 12 {
        "│  g / G     jump top / bottom      4  5      6M    YTD                    │"
    } else if i == 13 {
        "│  f         cycle filter           6  7      1Y    MAX                    │"
    } else if i == 14 {
        "│  enter     chart this ticker                                             │"
    } else if i == 15 {
        "│  s / S     sort / reverse                                                │"
    } else if i == 16 {
        "│  x         remove symbol                                                 │"
    } else if i == 17 {
        "│  r         refresh data                                                  │"
    } else if i == 19 {
        "│  commands                                                                │"
    } else if i == 20 {
        "│  :add <SYM>      add to watchlist   :tf <RANGE>      set timeframe       │"
    } else if i == 21 {
        "│  :rm <SYM>       remove symbol      :export [path]   write JSON          │"
    } else if i == 22 {
        "│  :detail <SYM>   open drilldown     :settings        open settings       │"
    } else {
        "└──────────────────────────────────────────────────────────────────────────┘"
    }
}

/// Where the box's top-left corner goes: centred in the area.
pub fn help_origin(area: Area) -> (p: (u16, u16))
    requires
        area.x + area.width <= u16::MAX,
        area.y + area.height <= u16::MAX,
    ensures
        p.0 == area.x + (if area.width >= HELP_WIDTH { area.width - HELP_WIDTH } else { 0 }) / 2,
        p.1 == area.y + (if area.height >= HELP_HEIGHT { area.height - HELP_HEIGHT } else { 0 }) / 2,
{
    (
        area.x + area.width.saturating_sub(HELP_WIDTH) / 2,
        area.y + area.height.saturating_sub(HELP_HEIGHT) / 2,
    )
}

/// A cell a run may contain: not the right border, and not a space that starts a
/// double space.
pub open spec fn in_run(c: Seq<char>, j: int) -> bool {
    c[j] != '│' && !(c[j] == ' ' && j + 1 < c.len() && c[j + 1] == ' ')
}

/// All cells in `[a, b)` are spaces.
pub open spec fn all_spaces(c: Seq<char>, a: int, b: int) -> bool {
    forall|j: int| a <= j < b ==> c[j] == ' '
}

/// Where the scan resumes after span `k` (or starts, for `k == 0`).
pub open spec fn resume_at(r: Seq<(usize, usize)>, k: int) -> int {
    if k == 0 { 3 } else { r[k - 1].0 + r[k - 1].1 }
}

/// Run `k` of `r` starts at the first non-space cell at or after where the scan
/// resumed, and extends exactly as far as cells may belong to a run.
pub open spec fn run_ok(c: Seq<char>, r: Seq<(usize, usize)>, k: int) -> bool {
    let s = r[k].0 as int;
    let l = r[k].1 as int;
    &&& resume_at(r, k) <= s
    &&& all_spaces(c, resume_at(r, k), s)
    &&& l >= 1
    &&& s + l <= c.len()
    &&& c[s] != ' '
    &&& forall|j: int| s <= j < s + l ==> in_run(c, j)
    &&& (s + l == c.len() || !in_run(c, s + l))
}

/// From `e`, only spaces lead up to `m`, where the line ends or the border is.
pub open spec fn stops_at(c: Seq<char>, e: int, m: int) -> bool {
    e <= m <= c.len() && all_spaces(c, e, m) && (m == c.len() || c[m] == '│')
}

/// `r` is the run split of line `c`: scanning from column 3, each run starts at
/// the next non-space cell, extends while cells may belong to a run (a single space
/// stays inside, two spaces or the border end it), and the scan stops at the
/// border or the end of the line.
pub open spec fn runs_of(c: Seq<char>, r: Seq<(usize, usize)>) -> bool {
    &&& forall|k: int| 0 <= k < r.len() ==> #[trigger] run_ok(c, r, k)
    &&& (resume_at(r, r.len() as int) >= c.len() || exists|m: int|
        #[trigger] stops_at(c, resume_at(r, r.len() as int), m))
}

/// Two splits that agree on their first `k` runs resume at the same column.
proof fn lemma_resume_agrees(r1: Seq<(usize, usize)>, r2: Seq<(usize, usize)>, k: int)
    requires
        0 <= k <= r1.len(),
        k <= r2.len(),
        forall|j: int| 0 <= j < k ==> r1[j] == r2[j],
    ensures
        resume_at(r1, k) == resume_at(r2, k),
{
    if k > 0 {
        assert(r1[k - 1] == r2[k - 1]);
    }
}

/// Run `k` of two splits is the same run when both resume at the same column.
proof fn lemma_run_determined(c: Seq<char>, r1: Seq<(usize, usize)>, r2: Seq<(usize, usize)>, k: int)
    requires
        0 <= k < r1.len(),
        k < r2.len(),
        run_ok(c, r1, k),
        run_ok(c, r2, k),
        resume_at(r1, k) == resume_at(r2, k),
    ensures
        r1[k] == r2[k],
{
    let s1 = r1[k].0 as int;
    let s2 = r2[k].0 as int;
    let l1 = r1[k].1 as int;
    let l2 = r2[k].1 as int;
    if s1 < s2 {
        assert(c[s1] == ' ');
    }
    if s2 < s1 {
        assert(c[s2] == ' ');
    }
    if l1 < l2 {
        assert(in_run(c, s1 + l1));
    }
    if l2 < l1 {
        assert(in_run(c, s2 + l2));
    }
}

/// Where a run starts, the scan has not stopped: the line goes on, and no column
/// ahead closes it off with only spaces before a border or the end.
proof fn lemma_run_means_no_stop(c: Seq<char>, r: Seq<(usize, usize)>, k: int)
    requires
        0 <= k < r.len(),
        run_ok(c, r, k),
    ensures
        resume_at(r, k) < c.len(),
        forall|m: int| !#[trigger] stops_at(c, resume_at(r, k), m),
{
    let e = resume_at(r, k);
    let st = r[k].0 as int;
    assert(in_run(c, st));
    assert forall|m: int| !#[trigger] stops_at(c, e, m) by {
        if stops_at(c, e, m) {
            if m < st {
                assert(c[m] == ' ');
            } else if m > st {
                assert(c[st] == ' ');
            }
        }
    }
}

/// Two run splits of one line agree on their first `k` runs.
proof fn lemma_prefix_agrees(c: Seq<char>, r1: Seq<(usize, usize)>, r2: Seq<(usize, usize)>, k: int)
    requires
        runs_of(c, r1),
        runs_of(c, r2),
        0 <= k <= r1.len(),
        k <= r2.len(),
    ensures
        forall|j: int| 0 <= j < k ==> r1[j] == r2[j],
    decreases k,
{
    if k > 0 {
        lemma_prefix_agrees(c, r1, r2, k - 1);
        lemma_resume_agrees(r1, r2, k - 1);
        assert(run_ok(c, r1, k - 1));
        assert(run_ok(c, r2, k - 1));
        lemma_run_determined(c, r1, r2, k - 1);
    }
}

/// A line has exactly one run split: the contract of `key_spans` pins its result.
pub proof fn lemma_runs_unique(c: Seq<char>, r1: Seq<(usize, usize)>, r2: Seq<(usize, usize)>)
    requires
        runs_of(c, r1),
        runs_of(c, r2),
    ensures
        r1 == r2,
{
    let n = if r1.len() <= r2.len() { r1.len() as int } else { r2.len() as int };
    lemma_prefix_agrees(c, r1, r2, n);
    lemma_resume_agrees(r1, r2, n);
    if r1.len() < r2.len() {
        assert(run_ok(c, r2, n));
        lemma_run_means_no_stop(c, r2, n);
    } else if r2.len() < r1.len() {
        assert(run_ok(c, r1, n));
        lemma_run_means_no_stop(c, r1, n);
    }
    assert(r1 =~= r2);
}

/// Splits a content line into runs (start column, length) from column 3 on. Runs
/// alternate key, description, key, … so the caller colours the even ones.
pub fn key_spans(chars: &Vec<char>) -> (r: Vec<(usize, usize)>)
    ensures
        runs_of(chars@, r@),
{
    let n = chars.len();
    let mut spans: Vec<(usize, usize)> = Vec::new();
    let mut i: usize = 3;
    loop
        invariant_except_break
            n == chars@.len(),
            i >= 3,
            i == resume_at(spans@, spans@.len() as int),
            forall|k: int| 0 <= k < spans@.len() ==> #[trigger] run_ok(chars@, spans@, k),
        ensures
            runs_of(chars@, spans@),
        decreases n + 1 - i,
    {
        let pe = i;
        while i < n && chars[i] == ' '
            invariant
                n == chars@.len(),
                pe <= i,
                pe <= n ==> i <= n,
                pe > n ==> i == pe,
                all_spaces(chars@, pe as int, i as int),
            decreases n - i,
        {
            i += 1;
        }
        if i >= n || chars[i] == '│' {
            if pe < n {
                assert(stops_at(chars@, pe as int, i as int));
            }
            break;
        }
        let start = i;
        while i < n && chars[i] != '│' && !(chars[i] == ' ' && i + 1 < n && chars[i + 1] == ' ')
            invariant
                n == chars@.len(),
                start <= i <= n,
                forall|j: int| start <= j < i ==> in_run(chars@, j),
            decreases n - i,
        {
            i += 1;
        }
        let ghost old_spans = spans@;
        spans.push((start, i - start));
        proof {
            assert(in_run(chars@, start as int));
            assert forall|k: int| 0 <= k < old_spans.len() implies #[trigger] run_ok(chars@, spans@, k) by {
                assert(spans@[k] == old_spans[k]);
                if k > 0 {
                    assert(spans@[k - 1] == old_spans[k - 1]);
                }
                assert(run_ok(chars@, old_spans, k));
            }
            assert(resume_at(spans@, old_spans.len() as int) == pe);
            assert(run_ok(chars@, spans@, old_spans.len() as int));
        }
    }
    spans
}

/// Section headings inside the box.
pub open spec fn is_heading(t: Seq<char>) -> bool {
    t == "navigation"@ || t == "chart grid"@ || t == "watchlist"@ || t == "timeframes"@ || t
        == "commands"@
}

/// The colour of run `idx` with text `t`: a heading gets the heading colour, a key
/// (even run) the accent, a description (odd run) keeps the muted base (`None`).
pub open spec fn run_role_spec(t: Seq<char>, idx: int) -> Option<Role> {
    if is_heading(t) {
        Some(Role::Heading)
    } else if idx % 2 == 0 {
        Some(Role::Accent)
    } else {
        None
    }
}

/// The colour a run is repainted in, if any.
pub fn run_role(text: &str, idx: usize) -> (r: Option<Role>)
    ensures
        r == run_role_spec(text@, idx as int),
{
    if str_eq(text, "navigation") || str_eq(text, "chart grid") || str_eq(text, "watchlist") || str_eq(
        text,
        "timeframes",
    ) || str_eq(text, "commands") {
        Some(Role::Heading)
    } else if idx % 2 == 0 {
        Some(Role::Accent)
    } else {
        None
    }
}

} // verus!
