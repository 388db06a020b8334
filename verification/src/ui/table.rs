//! Watchlist table: which symbols pass the filter, how many rows fit, which rows
//! are drawn, the scrollbar thumb, and the title's filter tabs.

use vstd::prelude::*;

use crate::app::{AssetFilter, SortKey};
use crate::data::types::{kind_of_symbol, lemma_kind_by_spelling, AssetKind};
use crate::text::{char_count, chars_of, lemma_lex_lt_asymmetric, lemma_lex_lt_total, lemma_lex_lt_transitive, lex_less, lex_lt};
use crate::ui::glyph::{SORT_ASC, SORT_DESC};
use crate::ui::layout::{Span, SpanView, right_start, span_views};
use crate::ui::theme::Role;

verus! {

broadcast use vstd::string::group_string_axioms;

/// Body rows before the first terminal size is known.
pub const TABLE_VISIBLE_ROWS: usize = 14;

/// Right edge (inclusive column) of the price column.
pub const PRICE_END: u16 = 22;

/// Right edge (inclusive column) of the change column.
pub const CHG_END: u16 = 31;

/// Column of the sort-direction arrow.
pub const SORT_COL: u16 = 33;

/// Column of the scrollbar.
pub const SCROLL_COL: u16 = 38;

/// Data rows the table body can show at a given panel height: the panel minus its
/// title row, header row and bottom border, and never fewer than one.
pub fn visible_rows(panel_height: u16) -> (n: usize)
    ensures
        n == if panel_height >= 4 { panel_height - 3 } else { 1 },
{
    let r = (panel_height as usize).saturating_sub(3);
    if r >= 1 {
        r
    } else {
        1
    }
}

/// Whether an asset kind passes a filter.
pub open spec fn matches_filter(filter: AssetFilter, kind: AssetKind) -> bool {
    match filter {
        AssetFilter::All => true,
        AssetFilter::Stocks => kind == AssetKind::Stock,
        AssetFilter::Crypto => kind == AssetKind::Crypto,
        AssetFilter::Indices => kind == AssetKind::Index,
    }
}

/// Does an asset kind pass the current filter?
pub fn asset_matches(filter: AssetFilter, kind: AssetKind) -> (r: bool)
    ensures
        r == matches_filter(filter, kind),
{
    match (filter, kind) {
        (AssetFilter::All, _) => true,
        (AssetFilter::Stocks, AssetKind::Stock) => true,
        (AssetFilter::Crypto, AssetKind::Crypto) => true,
        (AssetFilter::Indices, AssetKind::Index) => true,
        _ => false,
    }
}

/// The watchlist entries the filter keeps, in watchlist order.
pub open spec fn filtered(watchlist: Seq<String>, filter: AssetFilter) -> Seq<String> {
    watchlist.filter(|s: String| matches_filter(filter, kind_of_symbol(s@)))
}

/// The watchlist filtered by asset kind, inferred from each symbol so filtering
/// works before any quote has arrived; the table then sorts this list.
pub fn filter_symbols(watchlist: &Vec<String>, filter: AssetFilter) -> (v: Vec<String>)
    ensures
        v@ == filtered(watchlist@, filter),
{
    let mut v: Vec<String> = Vec::new();
    let mut i: usize = 0;
    let ghost pred = |s: String| matches_filter(filter, kind_of_symbol(s@));
    while i < watchlist.len()
        invariant
            i <= watchlist.len(),
            pred == (|s: String| matches_filter(filter, kind_of_symbol(s@))),
            v@ == watchlist@.take(i as int).filter(pred),
        decreases watchlist.len() - i,
    {
        proof {
            assert(watchlist@.take(i + 1) == watchlist@.take(i as int).push(watchlist@[i as int]));
            watchlist@.take(i as int).lemma_filter_push(watchlist@[i as int], pred);
        }
        let s = &watchlist[i];
        if asset_matches(filter, AssetKind::infer(s.as_str())) {
            v.push(s.clone());
        }
        i += 1;
    }
    assert(watchlist@.take(watchlist.len() as int) == watchlist@);
    v
}

/// The All filter keeps the whole watchlist, and the three kind filters split it:
/// every symbol passes exactly one of them.
pub proof fn lemma_filters_partition(watchlist: Seq<String>)
    ensures
        filtered(watchlist, AssetFilter::All) == watchlist,
        filtered(watchlist, AssetFilter::Stocks).len() + filtered(watchlist, AssetFilter::Crypto).len()
            + filtered(watchlist, AssetFilter::Indices).len() == watchlist.len(),
    decreases watchlist.len(),
{
    if watchlist.len() == 0 {
        assert(filtered(watchlist, AssetFilter::All) =~= watchlist);
        assert(filtered(watchlist, AssetFilter::Stocks) =~= Seq::<String>::empty());
        assert(filtered(watchlist, AssetFilter::Crypto) =~= Seq::<String>::empty());
        assert(filtered(watchlist, AssetFilter::Indices) =~= Seq::<String>::empty());
    } else {
        let pre = watchlist.drop_last();
        let x = watchlist.last();
        lemma_filters_partition(pre);
        assert(watchlist == pre.push(x));
        pre.lemma_filter_push(x, |s: String| matches_filter(AssetFilter::All, kind_of_symbol(s@)));
        pre.lemma_filter_push(x, |s: String| matches_filter(AssetFilter::Stocks, kind_of_symbol(s@)));
        pre.lemma_filter_push(x, |s: String| matches_filter(AssetFilter::Crypto, kind_of_symbol(s@)));
        pre.lemma_filter_push(x, |s: String| matches_filter(AssetFilter::Indices, kind_of_symbol(s@)));
    }
}

/// The rows drawn: from `offset` up to `visible` rows, never past the list.
pub fn shown_rows(total: usize, offset: usize, visible: usize) -> (r: (usize, usize))
    ensures
        r.0 == if offset <= total { offset } else { total },
        r.1 == if offset >= total {
            total as int
        } else if total - offset <= visible {
            total as int
        } else {
            offset + visible
        },
        r.0 <= r.1 <= total,
{
    if offset >= total {
        (total, total)
    } else if total - offset <= visible {
        (offset, total)
    } else {
        (offset, offset + visible)
    }
}

/// Scrollbar thumb height for `total` rows of which `visible` show.
pub open spec fn thumb_h_spec(total: int, visible: int) -> int {
    let h = visible * visible / total;
    if h >= 1 { h } else { 1 }
}

/// Scrollbar thumb top (relative to the track) for a list scrolled by `offset`.
pub open spec fn thumb_y_spec(total: int, offset: int, visible: int) -> int {
    offset * (visible - thumb_h_spec(total, visible)) / (total - visible)
}

/// The scrollbar thumb as (top, height) within a `visible`-row track, or `None`
/// when everything fits and no scrollbar is drawn.
pub fn scrollbar_thumb(total: usize, offset: usize, visible: usize) -> (r: Option<(u16, u16)>)
    requires
        1 <= visible <= u16::MAX,
        total > visible ==> offset * (visible - thumb_h_spec(total as int, visible as int)) <= usize::MAX,
        total > visible ==> thumb_y_spec(total as int, offset as int, visible as int) <= u16::MAX,
    ensures
        total <= visible ==> r is None,
        total > visible ==> r == Some(
            (
                thumb_y_spec(total as int, offset as int, visible as int) as u16,
                thumb_h_spec(total as int, visible as int) as u16,
            ),
        ),
        total > visible ==> 1 <= thumb_h_spec(total as int, visible as int) <= visible,
{
    if total <= visible {
        return None;
    }
    proof {
        assert(visible * visible <= total * visible) by (nonlinear_arith)
            requires
                visible < total,
        ;
        assert(visible * visible / (total as int) <= visible) by (nonlinear_arith)
            requires
                visible * visible <= total * visible,
                total > 0,
        ;
        assert(visible * visible <= 65535 * 65535) by (nonlinear_arith)
            requires
                1 <= visible <= 65535,
        ;
    }
    let track_h = visible as u16;
    let prod: usize = (track_h as usize) * visible;
    let q = prod / total;
    let thumb_h: usize = if q >= 1 { q } else { 1 };
    let max_off = total - visible;
    let thumb_y = offset * (visible - thumb_h) / max_off;
    Some((thumb_y as u16, thumb_h as u16))
}

/// When the list is scrolled no further than its last page, the thumb stays inside
/// the track.
pub proof fn lemma_thumb_inside_track(total: int, offset: int, visible: int)
    requires
        1 <= visible < total,
        0 <= offset <= total - visible,
    ensures
        0 <= thumb_y_spec(total, offset, visible),
        thumb_y_spec(total, offset, visible) + thumb_h_spec(total, visible) <= visible,
{
    let h = thumb_h_spec(total, visible);
    assert(visible * visible <= total * visible) by (nonlinear_arith)
        requires
            1 <= visible < total,
    ;
    assert(visible * visible / total <= visible) by (nonlinear_arith)
        requires
            visible * visible <= total * visible,
            total > 0,
    ;
    let room = visible - h;
    assert(offset * room <= (total - visible) * room) by (nonlinear_arith)
        requires
            offset <= total - visible,
            room >= 0,
    ;
    assert(offset * room / (total - visible) <= room) by (nonlinear_arith)
        requires
            offset * room <= (total - visible) * room,
            total - visible > 0,
    ;
    assert(0 <= offset * room / (total - visible)) by (nonlinear_arith)
        requires
            offset >= 0,
            room >= 0,
            total - visible > 0,
    ;
}

/// The tab text of a filter in the table title.
pub open spec fn tab_label(f: AssetFilter) -> Seq<char> {
    match f {
        AssetFilter::All => "All"@,
        AssetFilter::Stocks => "Stk"@,
        AssetFilter::Crypto => "Cry"@,
        AssetFilter::Indices => "Idx"@,
    }
}

/// How a tab is shown: the active one bracketed in accent, the others muted.
pub open spec fn tab_text(f: AssetFilter, active: AssetFilter) -> Seq<char> {
    if f == active { "["@ + tab_label(f) + "]"@ } else { tab_label(f) }
}

/// A tab's role.
pub open spec fn tab_role(f: AssetFilter, active: AssetFilter) -> Role {
    if f == active { Role::Accent } else { Role::Muted }
}

/// The title spans of the table: `┌─ watchlist ─ ` then each filter tab followed
/// by a space, laid out left to right from `x`.
pub open spec fn title_spec(x: int, y: int, active: AssetFilter, border: Role) -> Seq<SpanView> {
    let t0 = x + 3 + 9 + 3;
    let all = tab_text(AssetFilter::All, active);
    let stk = tab_text(AssetFilter::Stocks, active);
    let cry = tab_text(AssetFilter::Crypto, active);
    let idx = tab_text(AssetFilter::Indices, active);
    let t1 = t0 + all.len() + 1;
    let t2 = t1 + stk.len() + 1;
    let t3 = t2 + cry.len() + 1;
    seq![
        SpanView { x, y, text: "┌─ "@, role: border },
        SpanView { x: x + 3, y, text: "watchlist"@, role: Role::Heading },
        SpanView { x: x + 12, y, text: " ─ "@, role: border },
        SpanView { x: t0, y, text: all, role: tab_role(AssetFilter::All, active) },
        SpanView { x: t0 + all.len(), y, text: " "@, role: border },
        SpanView { x: t1, y, text: stk, role: tab_role(AssetFilter::Stocks, active) },
        SpanView { x: t1 + stk.len(), y, text: " "@, role: border },
        SpanView { x: t2, y, text: cry, role: tab_role(AssetFilter::Crypto, active) },
        SpanView { x: t2 + cry.len(), y, text: " "@, role: border },
        SpanView { x: t3, y, text: idx, role: tab_role(AssetFilter::Indices, active) },
        SpanView { x: t3 + idx.len(), y, text: " "@, role: border },
    ]
}

/// The tab string of a filter.
fn tab(f: AssetFilter, active: AssetFilter) -> (s: String)
    ensures
        s@ == tab_text(f, active),
{
    let label = match f {
        AssetFilter::All => "All",
        AssetFilter::Stocks => "Stk",
        AssetFilter::Crypto => "Cry",
        AssetFilter::Indices => "Idx",
    };
    if f == active {
        let mut s = "[".to_string();
        crate::text::push_str(&mut s, label);
        crate::text::push_str(&mut s, "]");
        s
    } else {
        label.to_string()
    }
}

/// Lays out the table title from column `x` on row `y`; `border` is the frame's
/// role (focused or not).
pub fn title_spans(x: u16, y: u16, active: AssetFilter, border: Role) -> (v: Vec<Span>)
    requires
        x + 40 <= u16::MAX,
    ensures
        span_views(v@) == title_spec(x as int, y as int, active, border),
{
    let mut v: Vec<Span> = Vec::new();
    v.push(Span { x, y, text: "┌─ ".to_string(), role: border });
    v.push(Span { x: x + 3, y, text: "watchlist".to_string(), role: Role::Heading });
    v.push(Span { x: x + 12, y, text: " ─ ".to_string(), role: border });
    let mut cx: u16 = x + 15;
    let fs = [AssetFilter::All, AssetFilter::Stocks, AssetFilter::Crypto, AssetFilter::Indices];
    let mut i: usize = 0;
    proof {
        reveal_strlit("All");
        reveal_strlit("Stk");
        reveal_strlit("Cry");
        reveal_strlit("Idx");
        reveal_strlit("[");
        reveal_strlit("]");
    }
    let ghost spec = title_spec(x as int, y as int, active, border);
    while i < 4
        invariant
            x + 40 <= u16::MAX,
            i <= 4,
            fs@ == seq![AssetFilter::All, AssetFilter::Stocks, AssetFilter::Crypto, AssetFilter::Indices],
            spec == title_spec(x as int, y as int, active, border),
            v@.len() == 3 + 2 * i,
            span_views(v@) == spec.take(3 + 2 * i),
            i < 4 ==> cx == spec[3 + 2 * i as int].x,
            cx <= x + 15 + 6 * i,
        decreases 4 - i,
    {
        let f = fs[i];
        let t = tab(f, active);
        proof {
            reveal_strlit("All");
            reveal_strlit("Stk");
            reveal_strlit("Cry");
            reveal_strlit("Idx");
            reveal_strlit("[");
            reveal_strlit("]");
        }
        assert(t@.len() <= 5);
        let n = char_count(t.as_str()) as u16;
        let role = if f == active { Role::Accent } else { Role::Muted };
        let ghost before = v@;
        v.push(Span { x: cx, y, text: t, role });
        cx = cx + n;
        v.push(Span { x: cx, y, text: " ".to_string(), role: border });
        cx = cx + 1;
        proof {
            assert(span_views(v@) =~= span_views(before).push(v@[v@.len() - 2]@).push(v@[v@.len() - 1]@));
            assert(spec.take(3 + 2 * (i + 1)) =~= spec.take(3 + 2 * i).push(spec[3 + 2 * i as int]).push(
                spec[4 + 2 * i as int],
            ));
        }
        i += 1;
    }
    assert(spec.take(11) =~= spec);
    v
}

/// The header row of the table at column `x`, row `y`: `ticker` at `x + 2`,
/// `price` and `chg%` right-aligned to their columns' edges, and the sort arrow
/// beside the change column when the table is sorted by change.
pub open spec fn header_spec(x: int, y: int, sort: SortKey, desc: bool) -> Seq<SpanView> {
    let cols = seq![
        SpanView { x: x + 2, y, text: "ticker"@, role: Role::Heading },
        SpanView { x: right_start(x + PRICE_END, 5), y, text: "price"@, role: Role::Heading },
        SpanView { x: right_start(x + CHG_END, 4), y, text: "chg%"@, role: Role::Heading },
    ];
    if sort == SortKey::ChangePct {
        cols.push(
            SpanView { x: x + SORT_COL, y, text: seq![if desc { SORT_DESC } else { SORT_ASC }], role: Role::Heading },
        )
    } else {
        cols
    }
}

/// Lays out the header row.
pub fn header_spans(x: u16, y: u16, sort: SortKey, desc: bool) -> (v: Vec<Span>)
    requires
        x + SORT_COL <= u16::MAX,
    ensures
        span_views(v@) == header_spec(x as int, y as int, sort, desc),
{
    let mut v: Vec<Span> = Vec::new();
    v.push(Span { x: x + 2, y, text: "ticker".to_string(), role: Role::Heading });
    v.push(Span { x: x + PRICE_END - 4, y, text: "price".to_string(), role: Role::Heading });
    v.push(Span { x: x + CHG_END - 3, y, text: "chg%".to_string(), role: Role::Heading });
    if sort == SortKey::ChangePct {
        let mut t = String::new();
        crate::text::push_char(&mut t, if desc { SORT_DESC } else { SORT_ASC });
        v.push(Span { x: x + SORT_COL, y, text: t, role: Role::Heading });
    }
    assert(span_views(v@) =~= header_spec(x as int, y as int, sort, desc));
    v
}

/// `a` goes before `b` when sorting by symbol, ascending or (`desc`) descending.
pub open spec fn symbol_before(a: Seq<char>, b: Seq<char>, desc: bool) -> bool {
    if desc { lex_lt(b, a) } else { lex_lt(a, b) }
}

/// Symbols in sorted order: no symbol goes before the one ahead of it.
pub open spec fn symbols_sorted(s: Seq<String>, desc: bool) -> bool {
    forall|i: int| 0 <= i < s.len() - 1 ==> !symbol_before(#[trigger] s[i + 1]@, s[i]@, desc)
}

/// The watchlist sorted by symbol in code-point order, ascending or descending:
/// the same symbols, each as often as before, in sorted order.
pub fn sort_by_symbol(syms: Vec<String>, desc: bool) -> (r: Vec<String>)
    ensures
        r@.to_multiset() == syms@.to_multiset(),
        symbols_sorted(r@, desc),
{
    broadcast use vstd::seq_lib::group_to_multiset_ensures, vstd::multiset::group_multiset_axioms;
    let mut input = syms;
    let mut out: Vec<String> = Vec::new();
    while input.len() > 0
        invariant
            out@.to_multiset().add(input@.to_multiset()) == syms@.to_multiset(),
            symbols_sorted(out@, desc),
        decreases input.len(),
    {
        let ghost before_pop = input@;
        let x = input.pop().unwrap();
        assert(before_pop =~= input@.push(x));
        let xc = chars_of(x.as_str());
        let mut p: usize = 0;
        let mut found = false;
        while p < out.len() && !found
            invariant
                p <= out.len(),
                xc@ == x@,
                symbols_sorted(out@, desc),
                found ==> p < out.len() && symbol_before(x@, out@[p as int]@, desc),
                p == 0 || !symbol_before(x@, out@[p - 1]@, desc),
            decreases out.len() - p + (if found { 0int } else { 1int }),
        {
            let yc = chars_of(out[p].as_str());
            let b = if desc { lex_less(&yc, &xc) } else { lex_less(&xc, &yc) };
            if b {
                found = true;
            } else {
                p += 1;
            }
        }
        let ghost prev = out@;
        proof {
            if p < prev.len() {
                lemma_lex_lt_asymmetric(x@, prev[p as int]@);
                lemma_lex_lt_asymmetric(prev[p as int]@, x@);
            }
        }
        out.insert(p, x);
        assert(out@ == prev.insert(p as int, x));
        proof {
            let ms_in = input@.to_multiset();
            vstd::seq_lib::to_multiset_build(input@, x);
            vstd::seq_lib::to_multiset_insert(prev, p as int, x);
            assert(out@.to_multiset().add(ms_in) =~= prev.to_multiset().add(ms_in.insert(x)));
        }
        assert forall|i: int| 0 <= i < out@.len() - 1 implies !symbol_before(
            #[trigger] out@[i + 1]@,
            out@[i]@,
            desc,
        ) by {
            if i + 1 < p {
                assert(out@[i + 1] == prev[i + 1] && out@[i] == prev[i]);
                assert(!symbol_before(prev[i + 1]@, prev[i]@, desc));
            } else if i + 1 == p {
                assert(out@[i] == prev[i] && out@[i + 1] == x);
            } else if i == p as int {
                assert(out@[i] == x && out@[i + 1] == prev[i]);
                assert(symbol_before(x@, prev[i]@, desc));
            } else {
                assert(out@[i + 1] == prev[i] && out@[i] == prev[i - 1]);
                let k = i - 1;
                assert(!symbol_before(prev[k + 1]@, prev[k]@, desc));
            }
        }
    }
    assert(input@ =~= Seq::<String>::empty());
    out
}

/// What each tab keeps, by how tickers are spelled: `All` keeps the whole
/// watchlist; the crypto tab keeps every `-USD` pair (a ticker not opening with
/// `^`); the indices tab keeps every `^` ticker; the stocks tab keeps neither.
pub proof fn lemma_tabs_by_spelling(w: Seq<String>, i: int, p: Seq<char>)
    requires
        0 <= i < w.len(),
    ensures
        filtered(w, AssetFilter::All) == w,
        w[i]@ == seq!['^'] + p ==> filtered(w, AssetFilter::Indices).contains(w[i])
            && !filtered(w, AssetFilter::Stocks).contains(w[i])
            && !filtered(w, AssetFilter::Crypto).contains(w[i]),
        w[i]@ == p + seq!['-', 'U', 'S', 'D'] && (p.len() == 0 || p[0] != '^') ==> filtered(
            w,
            AssetFilter::Crypto,
        ).contains(w[i]) && !filtered(w, AssetFilter::Stocks).contains(w[i])
            && !filtered(w, AssetFilter::Indices).contains(w[i]),
{
    broadcast use vstd::seq_lib::group_filter_ensures;
    lemma_kind_by_spelling(p);
    let all = |s: String| matches_filter(AssetFilter::All, kind_of_symbol(s@));
    assert(w.filter(all) =~= w) by {
        reveal(Seq::filter);
        lemma_filter_all(w, all);
    }
    let x = w[i];
    if kind_of_symbol(x@) == AssetKind::Index {
        w.lemma_filter_contains(|s: String| matches_filter(AssetFilter::Indices, kind_of_symbol(s@)), i);
    }
    if kind_of_symbol(x@) == AssetKind::Crypto {
        w.lemma_filter_contains(|s: String| matches_filter(AssetFilter::Crypto, kind_of_symbol(s@)), i);
    }
    if filtered(w, AssetFilter::Stocks).contains(x) {
        let k = choose|k: int| 0 <= k < filtered(w, AssetFilter::Stocks).len() && filtered(w, AssetFilter::Stocks)[k] == x;
        assert(matches_filter(AssetFilter::Stocks, kind_of_symbol(filtered(w, AssetFilter::Stocks)[k]@)));
    }
    if filtered(w, AssetFilter::Crypto).contains(x) {
        let k = choose|k: int| 0 <= k < filtered(w, AssetFilter::Crypto).len() && filtered(w, AssetFilter::Crypto)[k] == x;
        assert(matches_filter(AssetFilter::Crypto, kind_of_symbol(filtered(w, AssetFilter::Crypto)[k]@)));
    }
    if filtered(w, AssetFilter::Indices).contains(x) {
        let k = choose|k: int| 0 <= k < filtered(w, AssetFilter::Indices).len() && filtered(w, AssetFilter::Indices)[k] == x;
        assert(matches_filter(AssetFilter::Indices, kind_of_symbol(filtered(w, AssetFilter::Indices)[k]@)));
    }
}

/// Filtering by a predicate every element meets keeps the sequence whole.
proof fn lemma_filter_all(w: Seq<String>, pred: spec_fn(String) -> bool)
    requires
        forall|s: String| #[trigger] pred(s),
    ensures
        w.filter(pred) == w,
    decreases w.len(),
{
    reveal(Seq::filter);
    if w.len() > 0 {
        lemma_filter_all(w.drop_last(), pred);
        assert(w.drop_last().push(w.last()) =~= w);
    }
}

/// A list sorted by symbol is in code-point order throughout: ascending, no
/// symbol comes before any symbol ahead of it; descending, none comes after one.
pub proof fn lemma_sorted_means_code_point_order(s: Seq<String>, i: int, j: int)
    requires
        0 <= i < j < s.len(),
    ensures
        symbols_sorted(s, false) ==> !lex_lt(s[j]@, s[i]@),
        symbols_sorted(s, true) ==> !lex_lt(s[i]@, s[j]@),
    decreases j - i,
{
    if j > i + 1 {
        lemma_sorted_means_code_point_order(s, i, j - 1);
        let k = j - 1;
        assert(s[k + 1] == s[j]);
        lemma_lex_lt_total(s[i]@, s[k]@);
        lemma_lex_lt_total(s[k]@, s[j]@);
        if symbols_sorted(s, false) && lex_lt(s[j]@, s[i]@) {
            assert(!lex_lt(s[j]@, s[k]@));
            if s[i]@ != s[k]@ {
                lemma_lex_lt_transitive(s[j]@, s[i]@, s[k]@);
            }
        }
        if symbols_sorted(s, true) && lex_lt(s[i]@, s[j]@) {
            assert(!lex_lt(s[k]@, s[j]@));
            if s[i]@ != s[k]@ {
                lemma_lex_lt_transitive(s[k]@, s[i]@, s[j]@);
            }
        }
    }
}

} // verus!
