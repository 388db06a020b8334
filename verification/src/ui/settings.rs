//! Settings screen model: the thirteen editable rows of `config.toml`, the string
//! each row shows, its hint, and the edits `< >` (cycle) and space (toggle) make.
//!
//! Column geometry: label at col 3, value at col 23, hint at col 51.

use vstd::prelude::*;

use crate::config::{Config, DataCfg, Display, Mcp};
use crate::text::{bool_text, char_count, chars_of, decimal, decimal_of, push_char, push_str, str_eq, string_of};
use crate::ui::layout::{Span, SpanView, span_views};
use crate::ui::theme::Role;

verus! {

broadcast use vstd::string::group_string_axioms;

/// Label column.
pub const LABEL_X: u16 = 3;

/// Value column.
pub const VALUE_X: u16 = 23;

/// Hint column.
pub const HINT_X: u16 = 51;

/// Cells available for a value before the hint column, leaving one gap.
pub const VALUE_W: usize = 27;

/// Number of editable rows.
pub const ROW_COUNT: usize = 13;

/// Height of the settings box.
pub const PANEL_HEIGHT: u16 = 26;

/// The option lists that `< >` cycles through.
#[derive(Debug, Clone, Copy, PartialEq, Eq, Structural)]
pub enum EnumList {
    Themes,
    Timeframes,
    Filters,
    Sorts,
}

/// The numeric option lists that `< >` cycles through.
#[derive(Debug, Clone, Copy, PartialEq, Eq, Structural)]
pub enum NumList {
    Polls,
    Caches,
}

/// How a row is edited.
#[derive(Debug, Clone, Copy, PartialEq, Eq, Structural)]
pub enum Edit {
    Enum(EnumList),
    Num(NumList),
    Bool,
    /// Edited elsewhere or not yet; `< >` and space do nothing.
    Elsewhere,
}

/// The editor of each row; `None` past the last row.
pub open spec fn row_edit(row: int) -> Option<Edit> {
    if row == 3 {
        Some(Edit::Enum(EnumList::Themes))
    } else if row == 4 {
        Some(Edit::Enum(EnumList::Timeframes))
    } else if row == 5 {
        Some(Edit::Enum(EnumList::Filters))
    } else if row == 6 {
        Some(Edit::Enum(EnumList::Sorts))
    } else if row == 7 || row == 11 {
        Some(Edit::Bool)
    } else if row == 9 {
        Some(Edit::Num(NumList::Polls))
    } else if row == 10 {
        Some(Edit::Num(NumList::Caches))
    } else if 0 <= row < 13 {
        Some(Edit::Elsewhere)
    } else {
        None
    }
}

/// The option strings of an enum list, in cycle order.
pub open spec fn enum_options(l: EnumList) -> Seq<Seq<char>> {
    match l {
        EnumList::Themes => seq!["tokyonight"@, "gruvbox"@, "catppuccin"@, "nord"@],
        EnumList::Timeframes => seq!["1D"@, "5D"@, "1M"@, "6M"@, "YTD"@, "1Y"@, "MAX"@],
        EnumList::Filters => seq!["all"@, "stocks"@, "crypto"@, "indices"@],
        EnumList::Sorts => seq!["symbol"@, "price"@, "change_pct"@, "market_cap"@],
    }
}

/// The values of a numeric list, in cycle order.
pub open spec fn num_options(l: NumList) -> Seq<u64> {
    match l {
        NumList::Polls => seq![15u64, 30u64, 60u64, 300u64],
        NumList::Caches => seq![10u64, 30u64, 60u64],
    }
}

/// The label of each row.
pub open spec fn row_label_spec(row: int) -> Seq<char> {
    if row == 0 {
        "stocks"@
    } else if row == 1 {
        "crypto"@
    } else if row == 2 {
        "indices"@
    } else if row == 3 {
        "theme"@
    } else if row == 4 {
        "default_timeframe"@
    } else if row == 5 {
        "default_filter"@
    } else if row == 6 {
        "default_sort"@
    } else if row == 7 {
        "ticker_scroll"@
    } else if row == 8 {
        "provider"@
    } else if row == 9 {
        "poll_interval_sec"@
    } else if row == 10 {
        "cache_ttl_sec"@
    } else if row == 11 {
        "enabled"@
    } else {
        "socket_path"@
    }
}

/// The screen row each settings row is drawn on.
pub open spec fn row_y_spec(row: int) -> int {
    if row <= 2 {
        row + 3
    } else if row <= 7 {
        row + 5
    } else if row <= 10 {
        row + 7
    } else {
        row + 9
    }
}

/// The number a numeric row holds.
pub open spec fn num_value(row: int, c: Config) -> u64 {
    if row == 9 {
        c.data.poll_interval_sec
    } else {
        c.data.cache_ttl_sec
    }
}

/// The value string a row shows.
pub open spec fn value_spec(row: int, c: Config) -> Seq<char> {
    if row == 0 {
        decimal(c.watchlist.stocks@.len()) + " symbols"@
    } else if row == 1 {
        decimal(c.watchlist.crypto@.len()) + " symbols"@
    } else if row == 2 {
        decimal(c.watchlist.indices@.len()) + " symbols"@
    } else if row == 3 {
        c.display.theme@
    } else if row == 4 {
        c.display.default_timeframe@
    } else if row == 5 {
        c.display.default_filter@
    } else if row == 6 {
        c.display.default_sort@
    } else if row == 7 {
        if c.display.ticker_scroll { "true"@ } else { "false"@ }
    } else if row == 8 {
        c.data.provider@
    } else if row == 9 {
        decimal(c.data.poll_interval_sec as nat)
    } else if row == 10 {
        decimal(c.data.cache_ttl_sec as nat)
    } else if row == 11 {
        if c.mcp.enabled { "true"@ } else { "false"@ }
    } else if row == 12 {
        c.mcp.socket_path@
    } else {
        Seq::empty()
    }
}

/// The right-hand hint a row shows.
pub open spec fn hint_spec(row: int, c: Config) -> Seq<char> {
    if 0 <= row <= 2 {
        "edit via :add / :rm"@
    } else if row == 3 {
        "< >  tokyonight, gruvbox, catppuccin, nord"@
    } else if row == 4 {
        "< >  1D 5D 1M 6M YTD 1Y MAX"@
    } else if row == 5 {
        "< >  all, stocks, crypto, indices"@
    } else if row == 6 {
        "< >  symbol, price, change_pct, mkt_cap"@
    } else if row == 7 {
        "space to toggle  ·  speed "@ + decimal(c.display.ticker_speed_ms as nat) + "ms"@
    } else if row == 8 {
        "read-only"@
    } else if row == 9 {
        "< >  15, 30, 60, 300  ·  applies on restart"@
    } else if row == 10 {
        "< >  10, 30, 60"@
    } else if row == 11 {
        "space to toggle"@
    } else if row == 12 {
        "inline edit (TBD) — edit in config.toml"@
    } else {
        Seq::empty()
    }
}

/// Index of the first option equal to `cur` at or after `i`, or 0 when none is.
pub open spec fn enum_pos_from(opts: Seq<Seq<char>>, cur: Seq<char>, i: int) -> int
    decreases opts.len() - i,
{
    if i >= opts.len() {
        0
    } else if opts[i] == cur {
        i
    } else {
        enum_pos_from(opts, cur, i + 1)
    }
}

/// Position of `cur` in `opts`, or 0 when it is not there.
pub open spec fn enum_pos(opts: Seq<Seq<char>>, cur: Seq<char>) -> int {
    enum_pos_from(opts, cur, 0)
}

/// Index of the first number equal to `cur` at or after `i`, or 0 when none is.
pub open spec fn num_pos_from(opts: Seq<u64>, cur: u64, i: int) -> int
    decreases opts.len() - i,
{
    if i >= opts.len() {
        0
    } else if opts[i] == cur {
        i
    } else {
        num_pos_from(opts, cur, i + 1)
    }
}

/// Position of `cur` in `opts`, or 0 when it is not there.
pub open spec fn num_pos(opts: Seq<u64>, cur: u64) -> int {
    num_pos_from(opts, cur, 0)
}

/// `b` equals `a` in every field, except possibly the one that `row` edits.
pub open spec fn unchanged_except(a: Config, b: Config, row: int) -> bool {
    &&& a.watchlist == b.watchlist
    &&& (row != 3 ==> a.display.theme == b.display.theme)
    &&& (row != 4 ==> a.display.default_timeframe == b.display.default_timeframe)
    &&& (row != 5 ==> a.display.default_filter == b.display.default_filter)
    &&& (row != 6 ==> a.display.default_sort == b.display.default_sort)
    &&& (row != 7 ==> a.display.ticker_scroll == b.display.ticker_scroll)
    &&& a.display.ticker_speed_ms == b.display.ticker_speed_ms
    &&& a.data.provider == b.data.provider
    &&& (row != 9 ==> a.data.poll_interval_sec == b.data.poll_interval_sec)
    &&& (row != 10 ==> a.data.cache_ttl_sec == b.data.cache_ttl_sec)
    &&& (row != 11 ==> a.mcp.enabled == b.mcp.enabled)
    &&& a.mcp.socket_path == b.mcp.socket_path
}

/// What `cycle(row, delta)` does: on an enum or numeric row it moves the value
/// `delta` places along the option list (wrapping; a value not in the list counts
/// as the first option) and reports whether the value changed; on any other row
/// it changes nothing and reports `false`.
pub open spec fn cycle_post(a: Config, b: Config, row: int, delta: int, r: bool) -> bool {
    match row_edit(row) {
        Some(Edit::Enum(l)) => {
            let opts = enum_options(l);
            &&& unchanged_except(a, b, row)
            &&& value_spec(row, b) == opts[(enum_pos(opts, value_spec(row, a)) + delta) % (
            opts.len() as int)]
            &&& r == (value_spec(row, b) != value_spec(row, a))
        },
        Some(Edit::Num(l)) => {
            let opts = num_options(l);
            &&& unchanged_except(a, b, row)
            &&& num_value(row, b) == opts[(num_pos(opts, num_value(row, a)) + delta) % (
            opts.len() as int)]
            &&& r == (num_value(row, b) != num_value(row, a))
        },
        _ => !r && b == a,
    }
}

/// What `toggle(row)` does: on a bool row it flips that flag and reports `true`;
/// on any other row it changes nothing and reports `false`.
pub open spec fn toggle_post(a: Config, b: Config, row: int, r: bool) -> bool {
    if row == 7 {
        &&& r
        &&& unchanged_except(a, b, row)
        &&& b.display.ticker_scroll == !a.display.ticker_scroll
    } else if row == 11 {
        &&& r
        &&& unchanged_except(a, b, row)
        &&& b.mcp.enabled == !a.mcp.enabled
    } else {
        !r && b == a
    }
}

/// The overflow-free inputs of `cycle`: the option index plus `delta` fits an `i32`.
pub open spec fn cycle_in_range(c: Config, row: int, delta: int) -> bool {
    match row_edit(row) {
        Some(Edit::Enum(l)) => enum_pos(enum_options(l), value_spec(row, c)) + delta <= i32::MAX,
        Some(Edit::Num(l)) => num_pos(num_options(l), num_value(row, c)) + delta <= i32::MAX,
        _ => true,
    }
}

/// The editor of a row.
fn row_edit_of(row: usize) -> (e: Option<Edit>)
    ensures
        e == row_edit(row as int),
{
    if row == 3 {
        Some(Edit::Enum(EnumList::Themes))
    } else if row == 4 {
        Some(Edit::Enum(EnumList::Timeframes))
    } else if row == 5 {
        Some(Edit::Enum(EnumList::Filters))
    } else if row == 6 {
        Some(Edit::Enum(EnumList::Sorts))
    } else if row == 7 || row == 11 {
        Some(Edit::Bool)
    } else if row == 9 {
        Some(Edit::Num(NumList::Polls))
    } else if row == 10 {
        Some(Edit::Num(NumList::Caches))
    } else if row < 13 {
        Some(Edit::Elsewhere)
    } else {
        None
    }
}

/// The label of a row.
pub fn row_label(row: usize) -> (s: &'static str)
    requires
        row < ROW_COUNT,
    ensures
        s@ == row_label_spec(row as int),
{
    if row == 0 {
        "stocks"
    } else if row == 1 {
        "crypto"
    } else if row == 2 {
        "indices"
    } else if row == 3 {
        "theme"
    } else if row == 4 {
        "default_timeframe"
    } else if row == 5 {
        "default_filter"
    } else if row == 6 {
        "default_sort"
    } else if row == 7 {
        "ticker_scroll"
    } else if row == 8 {
        "provider"
    } else if row == 9 {
        "poll_interval_sec"
    } else if row == 10 {
        "cache_ttl_sec"
    } else if row == 11 {
        "enabled"
    } else {
        "socket_path"
    }
}

/// The screen row a settings row is drawn on (three rows of section headings and
/// blank lines separate watchlist, display, data and mcp).
pub fn row_y(row: usize) -> (y: u16)
    requires
        row < ROW_COUNT,
    ensures
        y == row_y_spec(row as int),
{
    if row <= 2 {
        row as u16 + 3
    } else if row <= 7 {
        row as u16 + 5
    } else if row <= 10 {
        row as u16 + 7
    } else {
        row as u16 + 9
    }
}

/// The option strings of an enum list.
fn enum_opts(l: EnumList) -> (v: Vec<&'static str>)
    ensures
        v@.len() == enum_options(l).len(),
        forall|i: int| 0 <= i < v@.len() ==> (#[trigger] v@[i])@ == enum_options(l)[i],
{
    let v = match l {
        EnumList::Themes => vec!["tokyonight", "gruvbox", "catppuccin", "nord"],
        EnumList::Timeframes => vec!["1D", "5D", "1M", "6M", "YTD", "1Y", "MAX"],
        EnumList::Filters => vec!["all", "stocks", "crypto", "indices"],
        EnumList::Sorts => vec!["symbol", "price", "change_pct", "market_cap"],
    };
    v
}

/// The values of a numeric list.
fn num_opts(l: NumList) -> (v: Vec<u64>)
    ensures
        v@ == num_options(l),
{
    let v = match l {
        NumList::Polls => vec![15u64, 30u64, 60u64, 300u64],
        NumList::Caches => vec![10u64, 30u64, 60u64],
    };
    assert(v@ =~= num_options(l));
    v
}

/// `x.rem_euclid(n)`.
fn wrap_index(x: i64, n: i64) -> (r: i64)
    requires
        n > 0,
    ensures
        r == x % n,
        0 <= r < n,
{
    if x >= 0 {
        x % n
    } else {
        let y: i64 = -(x + 1);
        let m = y % n;
        proof {
            let q = y / n;
            vstd::arithmetic::div_mod::lemma_fundamental_div_mod(y as int, n as int);
            assert(x as int == (-(q + 1)) * (n as int) + (n - 1 - m)) by (nonlinear_arith)
                requires
                    y as int == (n as int) * q + m,
                    x as int == -(y + 1),
            ;
            vstd::arithmetic::div_mod::lemma_fundamental_div_mod_converse(
                x as int,
                n as int,
                -(q + 1),
                n - 1 - m,
            );
        }
        n - 1 - m
    }
}

/// The value string shown for a row.
pub fn value_str(idx: usize, c: &Config) -> (s: String)
    ensures
        s@ == value_spec(idx as int, *c),
{
    if idx <= 2 {
        let n = if idx == 0 {
            c.watchlist.stocks.len()
        } else if idx == 1 {
            c.watchlist.crypto.len()
        } else {
            c.watchlist.indices.len()
        };
        let mut s = decimal_of(n as u64);
        push_str(&mut s, " symbols");
        s
    } else if idx == 3 {
        c.display.theme.clone()
    } else if idx == 4 {
        c.display.default_timeframe.clone()
    } else if idx == 5 {
        c.display.default_filter.clone()
    } else if idx == 6 {
        c.display.default_sort.clone()
    } else if idx == 7 {
        proof {
            reveal_strlit("true");
            reveal_strlit("false");
        }
        bool_text(c.display.ticker_scroll)
    } else if idx == 8 {
        c.data.provider.clone()
    } else if idx == 9 {
        decimal_of(c.data.poll_interval_sec)
    } else if idx == 10 {
        decimal_of(c.data.cache_ttl_sec)
    } else if idx == 11 {
        proof {
            reveal_strlit("true");
            reveal_strlit("false");
        }
        bool_text(c.mcp.enabled)
    } else if idx == 12 {
        c.mcp.socket_path.clone()
    } else {
        String::new()
    }
}

/// The right-hand hint for a row: the options it cycles through, or how else it
/// is edited.
pub fn hint(idx: usize, c: &Config) -> (s: String)
    ensures
        s@ == hint_spec(idx as int, *c),
{
    if idx <= 2 {
        "edit via :add / :rm".to_string()
    } else if idx == 3 {
        "< >  tokyonight, gruvbox, catppuccin, nord".to_string()
    } else if idx == 4 {
        "< >  1D 5D 1M 6M YTD 1Y MAX".to_string()
    } else if idx == 5 {
        "< >  all, stocks, crypto, indices".to_string()
    } else if idx == 6 {
        "< >  symbol, price, change_pct, mkt_cap".to_string()
    } else if idx == 7 {
        let mut s = "space to toggle  ·  speed ".to_string();
        let n = decimal_of(c.display.ticker_speed_ms);
        push_str(&mut s, n.as_str());
        push_str(&mut s, "ms");
        s
    } else if idx == 8 {
        "read-only".to_string()
    } else if idx == 9 {
        "< >  15, 30, 60, 300  ·  applies on restart".to_string()
    } else if idx == 10 {
        "< >  10, 30, 60".to_string()
    } else if idx == 11 {
        "space to toggle".to_string()
    } else if idx == 12 {
        "inline edit (TBD) — edit in config.toml".to_string()
    } else {
        String::new()
    }
}

/// Position of `cur` among `opts` (0 when absent).
fn position_str(cur: &str, opts: &Vec<&'static str>, Ghost(spec_opts): Ghost<Seq<Seq<char>>>) -> (i: usize)
    requires
        opts@.len() == spec_opts.len(),
        forall|k: int| 0 <= k < opts@.len() ==> (#[trigger] opts@[k])@ == spec_opts[k],
    ensures
        i == enum_pos(spec_opts, cur@),
{
    let mut i: usize = 0;
    while i < opts.len()
        invariant
            opts@.len() == spec_opts.len(),
            forall|k: int| 0 <= k < opts@.len() ==> (#[trigger] opts@[k])@ == spec_opts[k],
            i <= opts.len(),
            enum_pos_from(spec_opts, cur@, 0) == enum_pos_from(spec_opts, cur@, i as int),
        decreases opts.len() - i,
    {
        if str_eq(opts[i], cur) {
            return i;
        }
        i += 1;
    }
    0
}

/// Position of `cur` among `opts` (0 when absent).
fn position_num(cur: u64, opts: &Vec<u64>) -> (i: usize)
    ensures
        i == num_pos(opts@, cur),
{
    let mut i: usize = 0;
    while i < opts.len()
        invariant
            i <= opts.len(),
            num_pos_from(opts@, cur, 0) == num_pos_from(opts@, cur, i as int),
        decreases opts.len() - i,
    {
        if opts[i] == cur {
            return i;
        }
        i += 1;
    }
    0
}

/// The option `delta` places after `cur` in `opts`, wrapping.
fn cycle_str(cur: &str, opts: &Vec<&'static str>, delta: i32, Ghost(spec_opts): Ghost<Seq<Seq<char>>>) -> (s: String)
    requires
        0 < opts@.len() < 100,
        opts@.len() == spec_opts.len(),
        forall|k: int| 0 <= k < opts@.len() ==> (#[trigger] opts@[k])@ == spec_opts[k],
        enum_pos(spec_opts, cur@) + delta <= i32::MAX,
    ensures
        s@ == spec_opts[(enum_pos(spec_opts, cur@) + delta) % (spec_opts.len() as int)],
{
    let i = position_str(cur, opts, Ghost(spec_opts));
    let ni = wrap_index(i as i64 + delta as i64, opts.len() as i64);
    opts[ni as usize].to_string()
}

/// The number `delta` places after `cur` in `opts`, wrapping.
fn cycle_num(cur: u64, opts: &Vec<u64>, delta: i32) -> (n: u64)
    requires
        0 < opts@.len() < 100,
        num_pos(opts@, cur) + delta <= i32::MAX,
    ensures
        n == opts@[(num_pos(opts@, cur) + delta) % (opts@.len() as int)],
{
    let i = position_num(cur, opts);
    let ni = wrap_index(i as i64 + delta as i64, opts.len() as i64);
    opts[ni as usize]
}

/// Writes an enum row's value.
fn set_enum(c: &mut Config, row: usize, v: String)
    requires
        3 <= row <= 6,
    ensures
        unchanged_except(*old(c), *final(c), row as int),
        value_spec(row as int, *final(c)) == v@,
{
    if row == 3 {
        c.display.theme = v;
    } else if row == 4 {
        c.display.default_timeframe = v;
    } else if row == 5 {
        c.display.default_filter = v;
    } else {
        c.display.default_sort = v;
    }
}

/// Writes a numeric row's value.
fn set_num(c: &mut Config, row: usize, v: u64)
    requires
        row == 9 || row == 10,
    ensures
        unchanged_except(*old(c), *final(c), row as int),
        num_value(row as int, *final(c)) == v,
{
    if row == 9 {
        c.data.poll_interval_sec = v;
    } else {
        c.data.cache_ttl_sec = v;
    }
}

/// `< >` on the selected row: moves an enum or numeric value `delta` places along
/// its option list (wrapping). Does nothing on other rows. Returns whether the value
/// changed (a move by a whole turn of the list changes nothing).
pub fn cycle(config: &mut Config, row: usize, delta: i32) -> (r: bool)
    requires
        cycle_in_range(*old(config), row as int, delta as int),
    ensures
        cycle_post(*old(config), *final(config), row as int, delta as int, r),
{
    match row_edit_of(row) {
        Some(Edit::Enum(l)) => {
            let opts = enum_opts(l);
            let cur = value_str(row, config);
            let next = cycle_str(cur.as_str(), &opts, delta, Ghost(enum_options(l)));
            let changed = !str_eq(cur.as_str(), next.as_str());
            set_enum(config, row, next);
            changed
        },
        Some(Edit::Num(l)) => {
            let opts = num_opts(l);
            let cur = if row == 9 {
                config.data.poll_interval_sec
            } else {
                config.data.cache_ttl_sec
            };
            let next = cycle_num(cur, &opts, delta);
            set_num(config, row, next);
            next != cur
        },
        _ => false,
    }
}

/// Space on the selected row: flips a bool row. Does nothing on other rows.
/// Returns whether it flipped anything.
pub fn toggle(config: &mut Config, row: usize) -> (r: bool)
    ensures
        toggle_post(*old(config), *final(config), row as int, r),
{
    match row_edit_of(row) {
        Some(Edit::Bool) => {
            if row == 7 {
                config.display.ticker_scroll = !config.display.ticker_scroll;
            } else {
                config.mcp.enabled = !config.mcp.enabled;
            }
            true
        },
        _ => false,
    }
}

/// What `elide` shows: the string itself when it fits, else `…` followed by its
/// last `max - 1` characters.
pub open spec fn elide_spec(s: Seq<char>, max: int) -> Seq<char> {
    if s.len() <= max {
        s
    } else {
        seq!['…'] + s.skip(s.len() - (max - 1))
    }
}

/// Fits `s` into `max` cells, keeping the informative tail behind a leading `…`.
pub fn elide(s: &str, max: usize) -> (r: String)
    requires
        max > 0 || s@.len() <= max,
    ensures
        r@ == elide_spec(s@, max as int),
        r@.len() <= max || s@.len() <= max,
{
    let v = chars_of(s);
    let n = v.len();
    if n <= max {
        return string_of(&v);
    }
    let mut out: Vec<char> = Vec::new();
    out.push('…');
    let mut i: usize = n - (max - 1);
    while i < n
        invariant
            n == s@.len(),
            v@ == s@,
            n > max > 0,
            n - (max - 1) <= i <= n,
            out@ == seq!['…'] + s@.subrange(n - (max - 1), i as int),
        decreases n - i,
    {
        out.push(v[i]);
        i += 1;
        assert(s@.subrange(n - (max - 1), i as int) == s@.subrange(n - (max - 1), i - 1).push(
            s@[i - 1],
        ));
    }
    assert(s@.subrange(n - (max - 1), n as int) == s@.skip(n - (max - 1)));
    string_of(&out)
}

/// The first `n` characters of `s` (all of it when shorter).
pub open spec fn clip_spec(s: Seq<char>, n: int) -> Seq<char> {
    s.take(if n <= s.len() { n } else { s.len() as int })
}

/// Cuts `s` to its first `n` characters — how a hint is clipped at the right border.
pub fn clip(s: &str, n: usize) -> (r: String)
    ensures
        r@ == clip_spec(s@, n as int),
{
    let v = chars_of(s);
    let mut out: Vec<char> = Vec::new();
    let mut i: usize = 0;
    while i < n && i < v.len()
        invariant
            v@ == s@,
            i <= v.len(),
            i <= n,
            out@ == s@.take(i as int),
        decreases v.len() - i,
    {
        out.push(v[i]);
        i += 1;
        assert(s@.take(i as int) == s@.take(i - 1).push(s@[i - 1]));
    }
    string_of(&out)
}

/// Hint cells that fit before the right border of a `w`-wide box.
pub open spec fn hint_width_spec(w: int) -> int {
    if w >= 1 + HINT_X { w - 1 - HINT_X } else { 0 }
}

/// The number of hint cells that fit before the right border of a `w`-wide box.
pub fn hint_width(w: u16) -> (n: usize)
    ensures
        n == hint_width_spec(w as int),
{
    if w >= 1 + HINT_X {
        (w - 1 - HINT_X) as usize
    } else {
        0
    }
}

/// Each option list holds distinct entries, so the position of an option is its
/// index.
pub proof fn lemma_enum_pos_of_member(l: EnumList, k: int)
    requires
        0 <= k < enum_options(l).len(),
    ensures
        enum_pos(enum_options(l), enum_options(l)[k]) == k,
{
    let o = enum_options(l);
    reveal_strlit("tokyonight");
    reveal_strlit("gruvbox");
    reveal_strlit("catppuccin");
    reveal_strlit("nord");
    reveal_strlit("1D");
    reveal_strlit("5D");
    reveal_strlit("1M");
    reveal_strlit("6M");
    reveal_strlit("YTD");
    reveal_strlit("1Y");
    reveal_strlit("MAX");
    reveal_strlit("all");
    reveal_strlit("stocks");
    reveal_strlit("crypto");
    reveal_strlit("indices");
    reveal_strlit("symbol");
    reveal_strlit("price");
    reveal_strlit("change_pct");
    reveal_strlit("market_cap");
    assert forall|i: int, j: int| 0 <= i < j < o.len() implies o[i] != o[j] by {
        assert(o[i].len() != o[j].len() || o[i][0] != o[j][0] || o[i][1] != o[j][1]);
    }
    reveal_with_fuel(enum_pos_from, 8);
}

/// Each numeric list holds distinct values, so the position of a value is its index.
pub proof fn lemma_num_pos_of_member(l: NumList, k: int)
    requires
        0 <= k < num_options(l).len(),
    ensures
        num_pos(num_options(l), num_options(l)[k]) == k,
{
    reveal_with_fuel(num_pos_from, 5);
}

/// Cycling a row forward one step and then back one step restores its value,
/// whenever the value was one of the row's options; every other field is untouched.
pub proof fn lemma_cycle_forward_back(a: Config, b: Config, c: Config, row: int, r1: bool, r2: bool)
    requires
        cycle_post(a, b, row, 1, r1),
        cycle_post(b, c, row, -1, r2),
        row_edit(row) matches Some(Edit::Enum(l)) ==> enum_options(l).contains(value_spec(row, a)),
        row_edit(row) matches Some(Edit::Num(l)) ==> num_options(l).contains(num_value(row, a)),
    ensures
        value_spec(row, c) == value_spec(row, a),
        num_value(row, c) == num_value(row, a),
        unchanged_except(a, c, row),
{
    match row_edit(row) {
        Some(Edit::Enum(l)) => {
            let o = enum_options(l);
            let n = o.len() as int;
            let k = choose|k: int| 0 <= k < o.len() && o[k] == value_spec(row, a);
            lemma_enum_pos_of_member(l, k);
            let k1 = (k + 1) % n;
            lemma_enum_pos_of_member(l, k1);
            assert((k1 - 1) % n == k) by {
                if k + 1 < n {
                    vstd::arithmetic::div_mod::lemma_small_mod((k + 1) as nat, n as nat);
                    vstd::arithmetic::div_mod::lemma_small_mod(k as nat, n as nat);
                } else {
                    vstd::arithmetic::div_mod::lemma_mod_self_0(n);
                    vstd::arithmetic::div_mod::lemma_fundamental_div_mod_converse(-1, n, -1, n - 1);
                }
            }
        },
        Some(Edit::Num(l)) => {
            let o = num_options(l);
            let n = o.len() as int;
            let k = choose|k: int| 0 <= k < o.len() && o[k] == num_value(row, a);
            lemma_num_pos_of_member(l, k);
            let k1 = (k + 1) % n;
            lemma_num_pos_of_member(l, k1);
            assert((k1 - 1) % n == k) by {
                if k + 1 < n {
                    vstd::arithmetic::div_mod::lemma_small_mod((k + 1) as nat, n as nat);
                    vstd::arithmetic::div_mod::lemma_small_mod(k as nat, n as nat);
                } else {
                    vstd::arithmetic::div_mod::lemma_mod_self_0(n);
                    vstd::arithmetic::div_mod::lemma_fundamental_div_mod_converse(-1, n, -1, n - 1);
                }
            }
        },
        _ => {},
    }
}

/// Toggling a row twice gives back the configuration it started from.
pub proof fn lemma_toggle_twice(a: Config, b: Config, c: Config, row: int, r1: bool, r2: bool)
    requires
        toggle_post(a, b, row, r1),
        toggle_post(b, c, row, r2),
    ensures
        c == a,
{
    if row == 7 || row == 11 {
        assert(c.watchlist == a.watchlist);
        assert(c.display == a.display);
        assert(c.data == a.data);
        assert(c.mcp == a.mcp);
    }
}

/// Cycling always lands on one of the row's options.
pub proof fn lemma_cycle_lands_on_option(a: Config, b: Config, row: int, delta: int, r: bool)
    requires
        cycle_post(a, b, row, delta, r),
    ensures
        row_edit(row) matches Some(Edit::Enum(l)) ==> enum_options(l).contains(value_spec(row, b)),
        row_edit(row) matches Some(Edit::Num(l)) ==> num_options(l).contains(num_value(row, b)),
{
    match row_edit(row) {
        Some(Edit::Enum(l)) => {
            let o = enum_options(l);
            let i = (enum_pos(o, value_spec(row, a)) + delta) % (o.len() as int);
            assert(o[i] == value_spec(row, b));
        },
        Some(Edit::Num(l)) => {
            let o = num_options(l);
            let i = (num_pos(o, num_value(row, a)) + delta) % (o.len() as int);
            assert(o[i] == num_value(row, b));
        },
        _ => {},
    }
}

/// The fixed text of the settings box: its title over the top border, the four
/// section headings, and the footer saying how changes are written.
pub open spec fn chrome_spec() -> Seq<SpanView> {
    seq![
        SpanView { x: 0, y: 0, text: "┌─ "@, role: Role::Border },
        SpanView { x: 3, y: 0, text: "settings"@, role: Role::Heading },
        SpanView { x: 11, y: 0, text: " ─ "@, role: Role::Border },
        SpanView { x: 14, y: 0, text: "~/.config/quotail/config.toml "@, role: Role::Muted },
        SpanView { x: LABEL_X as int, y: 2, text: "watchlist"@, role: Role::Heading },
        SpanView { x: LABEL_X as int, y: 7, text: "display"@, role: Role::Heading },
        SpanView { x: LABEL_X as int, y: 14, text: "data"@, role: Role::Heading },
        SpanView { x: LABEL_X as int, y: 19, text: "mcp"@, role: Role::Heading },
        SpanView { x: LABEL_X as int, y: 23, text: "w writes changes to config.toml"@, role: Role::Muted },
    ]
}

/// Lays out the fixed text of the settings box.
pub fn chrome_spans() -> (v: Vec<Span>)
    ensures
        span_views(v@) == chrome_spec(),
{
    let mut v: Vec<Span> = Vec::new();
    v.push(Span { x: 0, y: 0, text: "┌─ ".to_string(), role: Role::Border });
    v.push(Span { x: 3, y: 0, text: "settings".to_string(), role: Role::Heading });
    v.push(Span { x: 11, y: 0, text: " ─ ".to_string(), role: Role::Border });
    v.push(Span { x: 14, y: 0, text: "~/.config/quotail/config.toml ".to_string(), role: Role::Muted });
    v.push(Span { x: LABEL_X, y: 2, text: "watchlist".to_string(), role: Role::Heading });
    v.push(Span { x: LABEL_X, y: 7, text: "display".to_string(), role: Role::Heading });
    v.push(Span { x: LABEL_X, y: 14, text: "data".to_string(), role: Role::Heading });
    v.push(Span { x: LABEL_X, y: 19, text: "mcp".to_string(), role: Role::Heading });
    v.push(Span { x: LABEL_X, y: 23, text: "w writes changes to config.toml".to_string(), role: Role::Muted });
    assert(span_views(v@) =~= chrome_spec());
    v
}

/// One settings row on a `w`-wide box: the label (bright when selected, muted
/// otherwise), the value elided to `VALUE_W` cells, and the hint clipped so it
/// never overruns the right border.
pub open spec fn row_spans_spec(row: int, selected: bool, w: int, c: Config) -> Seq<SpanView> {
    let y = row_y_spec(row);
    seq![
        SpanView { x: LABEL_X as int, y, text: row_label_spec(row), role: if selected { Role::Fg } else { Role::Muted } },
        SpanView { x: VALUE_X as int, y, text: elide_spec(value_spec(row, c), VALUE_W as int), role: Role::Price },
        SpanView {
            x: HINT_X as int,
            y,
            text: clip_spec(hint_spec(row, c), hint_width_spec(w)),
            role: Role::Muted,
        },
    ]
}

/// Lays out one settings row.
pub fn row_spans(row: usize, selected: bool, w: u16, c: &Config) -> (v: Vec<Span>)
    requires
        row < ROW_COUNT,
    ensures
        span_views(v@) == row_spans_spec(row as int, selected, w as int, *c),
{
    let y = row_y(row);
    let mut v: Vec<Span> = Vec::new();
    let label_role = if selected { Role::Fg } else { Role::Muted };
    v.push(Span { x: LABEL_X, y, text: row_label(row).to_string(), role: label_role });
    let value = value_str(row, c);
    v.push(Span { x: VALUE_X, y, text: elide(value.as_str(), VALUE_W), role: Role::Price });
    let h = hint(row, c);
    let n = hint_width(w);
    v.push(Span { x: HINT_X, y, text: clip(h.as_str(), n), role: Role::Muted });
    assert(span_views(v@) =~= row_spans_spec(row as int, selected, w as int, *c));
    v
}

/// The rows are drawn top to bottom in row order, each on its own line inside the
/// box, and none lands on a section heading (lines 2, 7, 14, 19) or the footer
/// (line 23).
pub proof fn lemma_rows_in_order(i: int, j: int)
    requires
        0 <= i < j < ROW_COUNT,
    ensures
        row_y_spec(i) < row_y_spec(j),
        0 < row_y_spec(i) && row_y_spec(j) < PANEL_HEIGHT - 1,
        row_y_spec(i) != 2 && row_y_spec(i) != 7 && row_y_spec(i) != 14 && row_y_spec(i) != 19 && row_y_spec(i)
            != 23,
        row_y_spec(j) != 2 && row_y_spec(j) != 7 && row_y_spec(j) != 14 && row_y_spec(j) != 19 && row_y_spec(j)
            != 23,
{
}

} // verus!
