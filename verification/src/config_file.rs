//! Rewriting `config.toml` in place. The text is parsed with `toml_edit`, only the
//! keys the app owns are replaced, and everything else the user wrote — comments,
//! blank lines, key order, other keys — stays as it was.

use vstd::prelude::*;

use crate::config::{of_kind, split_by_kind, views, Config};
use crate::data::types::AssetKind;
use crate::text::push_str;

verus! {

broadcast use vstd::string::group_string_axioms;

/// `toml_edit::DocumentMut`, held inside `TomlDoc`; nothing inside it is read.
#[verifier::external_type_specification]
#[verifier::external_body]
pub struct ExDocumentMut(toml_edit::DocumentMut);

/// A value written at `[table] key`.
pub enum TomlValueView {
    Strs(Seq<Seq<char>>),
    Str(Seq<char>),
    Bool(bool),
    Int(i64),
}

/// One edit of a document: the value set at `[table] key`.
pub struct TomlEdit {
    pub table: Seq<char>,
    pub key: Seq<char>,
    pub value: TomlValueView,
}

/// What `text.parse::<DocumentMut>()` reports: `None` when the text is a TOML
/// document, else the rendered error.
pub uninterp spec fn toml_parse_error(text: Seq<char>) -> Option<Seq<char>>;

/// Whether, in the document parsed from `text` and then edited by `edits` in
/// order, the top-level key `table` is absent or holds a table (a standard or an
/// inline one) — the case where `toml_edit` can set a key inside it.
pub uninterp spec fn toml_holds_table(text: Seq<char>, edits: Seq<TomlEdit>, table: Seq<char>) -> bool;

/// What `DocumentMut::to_string` renders for the document parsed from `text` and
/// then edited by `edits` in order.
pub uninterp spec fn toml_render(text: Seq<char>, edits: Seq<TomlEdit>) -> Seq<char>;

/// Whether `text` is a TOML document.
pub open spec fn toml_parses(text: Seq<char>) -> bool {
    toml_parse_error(text) is None
}

/// A value to write.
pub enum TomlValue {
    Strs(Vec<String>),
    Str(String),
    Bool(bool),
    Int(i64),
}

impl View for TomlValue {
    type V = TomlValueView;

    open spec fn view(&self) -> TomlValueView {
        match self {
            TomlValue::Strs(v) => TomlValueView::Strs(views(v@)),
            TomlValue::Str(s) => TomlValueView::Str(s@),
            TomlValue::Bool(b) => TomlValueView::Bool(*b),
            TomlValue::Int(i) => TomlValueView::Int(*i),
        }
    }
}

/// A value to write at `[table] key`.
pub struct TomlSet {
    pub table: String,
    pub key: String,
    pub value: TomlValue,
}

impl View for TomlSet {
    type V = TomlEdit;

    open spec fn view(&self) -> TomlEdit {
        TomlEdit { table: self.table@, key: self.key@, value: self.value@ }
    }
}

/// The edits of a list of sets.
pub open spec fn set_views(s: Seq<TomlSet>) -> Seq<TomlEdit> {
    s.map_values(|x: TomlSet| x@)
}

/// A parsed document together with the text it was parsed from and the edits
/// made to it since.
pub struct TomlDoc {
    doc: toml_edit::DocumentMut,
    src: Ghost<Seq<char>>,
    done: Ghost<Seq<TomlEdit>>,
}

impl TomlDoc {
    /// The text the document was parsed from.
    pub closed spec fn source(&self) -> Seq<char> {
        self.src@
    }

    /// The edits made since parsing, in order.
    pub closed spec fn edits(&self) -> Seq<TomlEdit> {
        self.done@
    }
}

/// `toml_edit::Value`, held inside `TomlVal`; nothing inside it is read.
#[verifier::external_type_specification]
#[verifier::external_body]
pub struct ExValue(toml_edit::Value);

/// `toml_edit::Array`, held inside `TomlArray`; nothing inside it is read.
#[verifier::external_type_specification]
#[verifier::external_body]
pub struct ExArray(toml_edit::Array);

/// A TOML value together with what it stands for.
struct TomlVal {
    v: toml_edit::Value,
    val: Ghost<TomlValueView>,
}

impl TomlVal {
    closed spec fn value(&self) -> TomlValueView {
        self.val@
    }
}

/// A TOML array of strings together with the strings pushed onto it.
struct TomlArray {
    arr: toml_edit::Array,
    items: Ghost<Seq<Seq<char>>>,
}

impl TomlArray {
    closed spec fn items(&self) -> Seq<Seq<char>> {
        self.items@
    }
}

/// `str::parse::<toml_edit::DocumentMut>`. The contract claims the result is a
/// document exactly when `toml_parse_error` says the text parses, and the error's
/// rendering otherwise.
#[verifier::external_body]
fn toml_parse(text: &str) -> (r: Result<TomlDoc, String>)
    ensures
        match toml_parse_error(text@) {
            Some(e) => r is Err && r->Err_0@ == e,
            None => r is Ok && r->Ok_0.source() == text@ && r->Ok_0.edits() == Seq::<TomlEdit>::empty(),
        },
{
    match text.parse::<toml_edit::DocumentMut>() {
        Ok(doc) => Ok(TomlDoc { doc, src: Ghost(text@), done: Ghost(Seq::empty()) }),
        Err(e) => Err(e.to_string()),
    }
}

/// `Table::get` on the document's root, read with `Item::is_table_like`: `None`
/// when the top-level key is absent, else whether it holds a table. The contract
/// claims `toml_holds_table` is exactly "absent or holding a table".
#[verifier::external_body]
fn toml_table_state(d: &TomlDoc, table: &str) -> (r: Option<bool>)
    ensures
        toml_holds_table(d.source(), d.edits(), table@) == (r is None || r == Some(true)),
{
    d.doc.get(table).map(toml_edit::Item::is_table_like)
}

/// `doc[table].or_insert(table())[key] = value(v)` with `toml_edit`; the indexing
/// panics unless `[table]` is absent or holds a table, which `requires` demands.
/// The contract claims the document is then the one edited by this set as well.
#[verifier::external_body]
fn toml_set(d: &mut TomlDoc, table: &str, key: &str, v: TomlVal)
    requires
        toml_holds_table(old(d).source(), old(d).edits(), table@),
    ensures
        final(d).source() == old(d).source(),
        final(d).edits() == old(d).edits().push(TomlEdit { table: table@, key: key@, value: v.value() }),
{
    d.doc[table].or_insert(toml_edit::table())[key] = toml_edit::value(v.v);
    d.done = Ghost(d.done@.push(TomlEdit { table: table@, key: key@, value: v.val@ }));
}

/// `toml_edit::Value::from(&str)`: a TOML string.
#[verifier::external_body]
fn toml_str(s: &str) -> (r: TomlVal)
    ensures
        r.value() == TomlValueView::Str(s@),
{
    TomlVal { v: toml_edit::Value::from(s), val: Ghost(TomlValueView::Str(s@)) }
}

/// `toml_edit::Value::from(bool)`: a TOML boolean.
#[verifier::external_body]
fn toml_bool(b: bool) -> (r: TomlVal)
    ensures
        r.value() == TomlValueView::Bool(b),
{
    TomlVal { v: toml_edit::Value::from(b), val: Ghost(TomlValueView::Bool(b)) }
}

/// `toml_edit::Value::from(i64)`: a TOML integer.
#[verifier::external_body]
fn toml_int(i: i64) -> (r: TomlVal)
    ensures
        r.value() == TomlValueView::Int(i),
{
    TomlVal { v: toml_edit::Value::from(i), val: Ghost(TomlValueView::Int(i)) }
}

/// `toml_edit::Array::new`: an empty array.
#[verifier::external_body]
fn toml_array_new() -> (a: TomlArray)
    ensures
        a.items() == Seq::<Seq<char>>::empty(),
{
    TomlArray { arr: toml_edit::Array::new(), items: Ghost(Seq::empty()) }
}

/// `toml_edit::Array::push` of a string: the array afterwards holds one more
/// string, at its end.
#[verifier::external_body]
fn toml_array_push(a: &mut TomlArray, s: &str)
    ensures
        final(a).items() == old(a).items().push(s@),
{
    a.arr.push(s);
    a.items = Ghost(a.items@.push(s@));
}

/// `toml_edit::Value::from(Array)`: a TOML array holding the strings pushed.
#[verifier::external_body]
fn toml_array(a: TomlArray) -> (r: TomlVal)
    ensures
        r.value() == TomlValueView::Strs(a.items()),
{
    TomlVal { v: toml_edit::Value::from(a.arr), val: Ghost(TomlValueView::Strs(a.items@)) }
}

/// `DocumentMut::to_string`. The contract claims the result is `toml_render` of
/// the source text and the edits made.
#[verifier::external_body]
fn toml_text(d: &TomlDoc) -> (s: String)
    ensures
        s@ == toml_render(d.source(), d.edits()),
{
    d.doc.to_string()
}

/// The TOML value standing for `v`; a string array keeps its order.
fn toml_value(v: &TomlValue) -> (r: TomlVal)
    ensures
        r.value() == v@,
{
    match v {
        TomlValue::Strs(items) => {
            let mut a = toml_array_new();
            let mut i: usize = 0;
            while i < items.len()
                invariant
                    i <= items.len(),
                    a.items() == views(items@).take(i as int),
                decreases items.len() - i,
            {
                toml_array_push(&mut a, items[i].as_str());
                proof {
                    assert(views(items@).take(i + 1) =~= views(items@).take(i as int).push(items@[i as int]@));
                }
                i += 1;
            }
            proof {
                assert(views(items@).take(items.len() as int) =~= views(items@));
            }
            toml_array(a)
        },
        TomlValue::Str(s) => toml_str(s.as_str()),
        TomlValue::Bool(b) => toml_bool(*b),
        TomlValue::Int(i) => toml_int(*i),
    }
}

/// The table of the first edit, from edit `k` on, that cannot be made because its
/// top-level key holds something other than a table; `None` when all can be made.
pub open spec fn first_unheld(text: Seq<char>, edits: Seq<TomlEdit>, k: int) -> Option<Seq<char>>
    decreases edits.len() - k,
{
    if k < 0 || k >= edits.len() {
        None
    } else if !toml_holds_table(text, edits.take(k), edits[k].table) {
        Some(edits[k].table)
    } else {
        first_unheld(text, edits, k + 1)
    }
}

/// The refusal for a top-level key that is not a table.
pub open spec fn not_table_msg(table: Seq<char>) -> Seq<char> {
    "["@ + table + "] in config.toml is not a table"@
}

/// What rewriting `text` with `edits` answers: the parse error; or the first
/// table that cannot be edited; or the document's new text.
pub open spec fn rewrite_spec(text: Seq<char>, edits: Seq<TomlEdit>, r: Result<String, String>) -> bool {
    match toml_parse_error(text) {
        Some(e) => r is Err && r->Err_0@ == e,
        None => match first_unheld(text, edits, 0) {
            Some(t) => r is Err && r->Err_0@ == not_table_msg(t),
            None => r is Ok && r->Ok_0@ == toml_render(text, edits),
        },
    }
}

/// Parses `text`, makes the sets in order, and renders the result.
fn rewrite(text: &str, sets: &Vec<TomlSet>) -> (r: Result<String, String>)
    ensures
        rewrite_spec(text@, set_views(sets@), r),
{
    let mut doc = match toml_parse(text) {
        Ok(d) => d,
        Err(e) => return Err(e),
    };
    let ghost sv = set_views(sets@);
    let mut i: usize = 0;
    while i < sets.len()
        invariant
            i <= sets.len(),
            sv == set_views(sets@),
            toml_parse_error(text@) is None,
            doc.source() == text@,
            doc.edits() == sv.take(i as int),
            first_unheld(text@, sv, 0) == first_unheld(text@, sv, i as int),
        decreases sets.len() - i,
    {
        let holds = match toml_table_state(&doc, sets[i].table.as_str()) {
            Some(b) => b,
            None => true,
        };
        if !holds {
            let mut m = "[".to_string();
            push_str(&mut m, sets[i].table.as_str());
            push_str(&mut m, "] in config.toml is not a table");
            proof {
                reveal_strlit("[");
                reveal_strlit("] in config.toml is not a table");
                assert(sv[i as int] == sets@[i as int]@);
            }
            return Err(m);
        }
        let v = toml_value(&sets[i].value);
        toml_set(&mut doc, sets[i].table.as_str(), sets[i].key.as_str(), v);
        proof {
            assert(sv[i as int] == sets@[i as int]@);
            assert(sv.take(i + 1) == sv.take(i as int).push(sv[i as int]));
        }
        i += 1;
    }
    proof {
        assert(sv.take(sets.len() as int) == sv);
    }
    Ok(toml_text(&doc))
}

/// The edits that write a watchlist back: the three per-kind arrays, each in
/// watchlist order.
pub open spec fn watchlist_edits(symbols: Seq<String>) -> Seq<TomlEdit> {
    seq![
        TomlEdit {
            table: "watchlist"@,
            key: "stocks"@,
            value: TomlValueView::Strs(views(of_kind(symbols, AssetKind::Stock))),
        },
        TomlEdit {
            table: "watchlist"@,
            key: "crypto"@,
            value: TomlValueView::Strs(views(of_kind(symbols, AssetKind::Crypto))),
        },
        TomlEdit {
            table: "watchlist"@,
            key: "indices"@,
            value: TomlValueView::Strs(views(of_kind(symbols, AssetKind::Index))),
        },
    ]
}

/// The sets that write a watchlist back.
fn watchlist_sets(symbols: &Vec<String>) -> (v: Vec<TomlSet>)
    ensures
        set_views(v@) == watchlist_edits(symbols@),
{
    let w = split_by_kind(symbols);
    let mut v: Vec<TomlSet> = Vec::new();
    v.push(TomlSet { table: "watchlist".to_string(), key: "stocks".to_string(), value: TomlValue::Strs(w.stocks) });
    v.push(TomlSet { table: "watchlist".to_string(), key: "crypto".to_string(), value: TomlValue::Strs(w.crypto) });
    v.push(TomlSet { table: "watchlist".to_string(), key: "indices".to_string(), value: TomlValue::Strs(w.indices) });
    assert(set_views(v@) =~= watchlist_edits(symbols@));
    v
}

/// Rewrites the watchlist arrays of a `config.toml` text, categorising each
/// symbol by kind, and keeps everything else in the text as it was.
pub fn rewrite_watchlist(text: &str, symbols: &Vec<String>) -> (r: Result<String, String>)
    ensures
        rewrite_spec(text@, watchlist_edits(symbols@), r),
{
    let sets = watchlist_sets(symbols);
    rewrite(text, &sets)
}

/// The edits that write the whole editable config back: the watchlist arrays,
/// then every `[display]`, `[data]` and `[mcp]` key. Numbers are written as TOML
/// integers (`i64`).
pub open spec fn config_edits(c: Config, watchlist: Seq<String>) -> Seq<TomlEdit> {
    watchlist_edits(watchlist) + seq![
        TomlEdit { table: "display"@, key: "theme"@, value: TomlValueView::Str(c.display.theme@) },
        TomlEdit {
            table: "display"@,
            key: "default_timeframe"@,
            value: TomlValueView::Str(c.display.default_timeframe@),
        },
        TomlEdit { table: "display"@, key: "default_filter"@, value: TomlValueView::Str(c.display.default_filter@) },
        TomlEdit { table: "display"@, key: "default_sort"@, value: TomlValueView::Str(c.display.default_sort@) },
        TomlEdit { table: "display"@, key: "ticker_scroll"@, value: TomlValueView::Bool(c.display.ticker_scroll) },
        TomlEdit {
            table: "display"@,
            key: "ticker_speed_ms"@,
            value: TomlValueView::Int(c.display.ticker_speed_ms as i64),
        },
        TomlEdit { table: "data"@, key: "provider"@, value: TomlValueView::Str(c.data.provider@) },
        TomlEdit {
            table: "data"@,
            key: "poll_interval_sec"@,
            value: TomlValueView::Int(c.data.poll_interval_sec as i64),
        },
        TomlEdit { table: "data"@, key: "cache_ttl_sec"@, value: TomlValueView::Int(c.data.cache_ttl_sec as i64) },
        TomlEdit { table: "mcp"@, key: "enabled"@, value: TomlValueView::Bool(c.mcp.enabled) },
        TomlEdit { table: "mcp"@, key: "socket_path"@, value: TomlValueView::Str(c.mcp.socket_path@) },
    ]
}

/// The value left at `[table] key` after `edits`: the last edit to that key wins;
/// `None` when no edit touches it.
pub open spec fn written(edits: Seq<TomlEdit>, table: Seq<char>, key: Seq<char>) -> Option<TomlValueView>
    decreases edits.len(),
{
    if edits.len() == 0 {
        None
    } else if edits.last().table == table && edits.last().key == key {
        Some(edits.last().value)
    } else {
        written(edits.drop_last(), table, key)
    }
}

/// An edit to `[table] key` that no later edit touches is the value left there.
pub proof fn lemma_written_last_edit(edits: Seq<TomlEdit>, k: int, table: Seq<char>, key: Seq<char>)
    requires
        0 <= k < edits.len(),
        edits[k].table == table && edits[k].key == key,
        forall|j: int| k < j < edits.len() ==> !(edits[j].table == table && edits[j].key == key),
    ensures
        written(edits, table, key) == Some(edits[k].value),
    decreases edits.len(),
{
    if k < edits.len() - 1 {
        lemma_written_last_edit(edits.drop_last(), k, table, key);
    }
}

/// The symbols of `w` of kind `k`, in watchlist order, as text.
pub open spec fn kind_texts(w: Seq<String>, k: AssetKind) -> Seq<Seq<char>> {
    w.filter(|s: String| crate::data::types::kind_of_symbol(s@) == k).map_values(|s: String| s@)
}

/// The keys of `config.toml` the app owns and rewrites.
pub open spec fn owned_key(table: Seq<char>, key: Seq<char>) -> bool {
    ||| table == "watchlist"@ && (key == "stocks"@ || key == "crypto"@ || key == "indices"@)
    ||| table == "display"@ && (key == "theme"@ || key == "default_timeframe"@ || key == "default_filter"@
        || key == "default_sort"@ || key == "ticker_scroll"@ || key == "ticker_speed_ms"@)
    ||| table == "data"@ && (key == "provider"@ || key == "poll_interval_sec"@ || key == "cache_ttl_sec"@)
    ||| table == "mcp"@ && (key == "enabled"@ || key == "socket_path"@)
}

/// Saving writes back the config that was saved: under every key the app owns,
/// the value left is that key's field of the config, each watchlist array holds
/// the watchlist's symbols of its kind, in order, and no other key is touched.
#[verifier::rlimit(40)]
pub proof fn lemma_saved_keys_hold_the_config(c: Config, w: Seq<String>)
    ensures
        ({
            let e = config_edits(c, w);
            &&& written(e, "watchlist"@, "stocks"@) == Some(TomlValueView::Strs(kind_texts(w, AssetKind::Stock)))
            &&& written(e, "watchlist"@, "crypto"@) == Some(TomlValueView::Strs(kind_texts(w, AssetKind::Crypto)))
            &&& written(e, "watchlist"@, "indices"@) == Some(TomlValueView::Strs(kind_texts(w, AssetKind::Index)))
            &&& written(e, "display"@, "theme"@) == Some(TomlValueView::Str(c.display.theme@))
            &&& written(e, "display"@, "default_timeframe"@) == Some(TomlValueView::Str(c.display.default_timeframe@))
            &&& written(e, "display"@, "default_filter"@) == Some(TomlValueView::Str(c.display.default_filter@))
            &&& written(e, "display"@, "default_sort"@) == Some(TomlValueView::Str(c.display.default_sort@))
            &&& written(e, "display"@, "ticker_scroll"@) == Some(TomlValueView::Bool(c.display.ticker_scroll))
            &&& written(e, "display"@, "ticker_speed_ms"@) == Some(TomlValueView::Int(c.display.ticker_speed_ms as i64))
            &&& written(e, "data"@, "provider"@) == Some(TomlValueView::Str(c.data.provider@))
            &&& written(e, "data"@, "poll_interval_sec"@) == Some(TomlValueView::Int(c.data.poll_interval_sec as i64))
            &&& written(e, "data"@, "cache_ttl_sec"@) == Some(TomlValueView::Int(c.data.cache_ttl_sec as i64))
            &&& written(e, "mcp"@, "enabled"@) == Some(TomlValueView::Bool(c.mcp.enabled))
            &&& written(e, "mcp"@, "socket_path"@) == Some(TomlValueView::Str(c.mcp.socket_path@))
            &&& forall|k: int| 0 <= k < e.len() ==> owned_key(#[trigger] e[k].table, e[k].key)
        }),
{
    reveal_strlit("watchlist");
    reveal_strlit("stocks");
    reveal_strlit("crypto");
    reveal_strlit("indices");
    reveal_strlit("display");
    reveal_strlit("theme");
    reveal_strlit("default_timeframe");
    reveal_strlit("default_filter");
    reveal_strlit("default_sort");
    reveal_strlit("ticker_scroll");
    reveal_strlit("ticker_speed_ms");
    reveal_strlit("data");
    reveal_strlit("provider");
    reveal_strlit("poll_interval_sec");
    reveal_strlit("cache_ttl_sec");
    reveal_strlit("mcp");
    reveal_strlit("enabled");
    reveal_strlit("socket_path");
    let e = config_edits(c, w);
    assert(views(of_kind(w, AssetKind::Stock)) =~= kind_texts(w, AssetKind::Stock));
    assert(views(of_kind(w, AssetKind::Crypto)) =~= kind_texts(w, AssetKind::Crypto));
    assert(views(of_kind(w, AssetKind::Index)) =~= kind_texts(w, AssetKind::Index));
    assert("stocks"@[0] != "crypto"@[0]);
    assert("stocks"@ != "crypto"@);
    let tables = seq!["watchlist"@, "display"@, "data"@, "mcp"@];
    assert(forall|i: int, j: int| 0 <= i < j < 4 ==> tables[i].len() != tables[j].len());
    assert(e[0].table == "watchlist"@ && e[1].table == "watchlist"@ && e[2].table == "watchlist"@);
    assert(e[3].table == "display"@ && e[4].table == "display"@ && e[5].table == "display"@);
    assert(e[6].table == "display"@ && e[7].table == "display"@ && e[8].table == "display"@);
    assert(e[9].table == "data"@ && e[10].table == "data"@ && e[11].table == "data"@);
    assert(e[12].table == "mcp"@ && e[13].table == "mcp"@ && e.len() == 14);
    let keys = seq![
        "theme"@,
        "default_timeframe"@,
        "default_filter"@,
        "default_sort"@,
        "ticker_scroll"@,
        "ticker_speed_ms"@,
    ];
    assert(forall|i: int| 0 <= i < 6 ==> e[3 + i].key == #[trigger] keys[i]);
    assert(forall|i: int, j: int| 0 <= i < j < 6 ==> keys[i].len() != keys[j].len());
    assert(e[9].key == "provider"@ && e[10].key == "poll_interval_sec"@ && e[11].key == "cache_ttl_sec"@);
    assert(e[12].key == "enabled"@ && e[13].key == "socket_path"@);
    assert(e[0].key == "stocks"@ && e[1].key == "crypto"@ && e[2].key == "indices"@);
    assert(forall|k: int| 3 <= k < 9 ==> e[k].key == keys[k - 3]);
    lemma_written_last_edit(e, 0, "watchlist"@, "stocks"@);
    lemma_written_last_edit(e, 1, "watchlist"@, "crypto"@);
    lemma_written_last_edit(e, 2, "watchlist"@, "indices"@);
    lemma_written_last_edit(e, 3, "display"@, "theme"@);
    lemma_written_last_edit(e, 4, "display"@, "default_timeframe"@);
    lemma_written_last_edit(e, 5, "display"@, "default_filter"@);
    lemma_written_last_edit(e, 6, "display"@, "default_sort"@);
    lemma_written_last_edit(e, 7, "display"@, "ticker_scroll"@);
    lemma_written_last_edit(e, 8, "display"@, "ticker_speed_ms"@);
    lemma_written_last_edit(e, 9, "data"@, "provider"@);
    lemma_written_last_edit(e, 10, "data"@, "poll_interval_sec"@);
    lemma_written_last_edit(e, 11, "data"@, "cache_ttl_sec"@);
    lemma_written_last_edit(e, 12, "mcp"@, "enabled"@);
    lemma_written_last_edit(e, 13, "mcp"@, "socket_path"@);
}

/// A string set.
fn set_str(table: &str, key: &str, v: &String) -> (s: TomlSet)
    ensures
        s@ == (TomlEdit { table: table@, key: key@, value: TomlValueView::Str(v@) }),
{
    TomlSet { table: table.to_string(), key: key.to_string(), value: TomlValue::Str(v.clone()) }
}

/// Rewrites the watchlist and every editable setting of a `config.toml` text,
/// keeping everything else in the text as it was.
pub fn rewrite_config(text: &str, c: &Config, watchlist: &Vec<String>) -> (r: Result<String, String>)
    ensures
        rewrite_spec(text@, config_edits(*c, watchlist@), r),
{
    let mut sets = watchlist_sets(watchlist);
    let ghost w = set_views(sets@);
    sets.push(set_str("display", "theme", &c.display.theme));
    sets.push(set_str("display", "default_timeframe", &c.display.default_timeframe));
    sets.push(set_str("display", "default_filter", &c.display.default_filter));
    sets.push(set_str("display", "default_sort", &c.display.default_sort));
    sets.push(
        TomlSet {
            table: "display".to_string(),
            key: "ticker_scroll".to_string(),
            value: TomlValue::Bool(c.display.ticker_scroll),
        },
    );
    sets.push(
        TomlSet {
            table: "display".to_string(),
            key: "ticker_speed_ms".to_string(),
            value: TomlValue::Int(c.display.ticker_speed_ms as i64),
        },
    );
    sets.push(set_str("data", "provider", &c.data.provider));
    sets.push(
        TomlSet {
            table: "data".to_string(),
            key: "poll_interval_sec".to_string(),
            value: TomlValue::Int(c.data.poll_interval_sec as i64),
        },
    );
    sets.push(
        TomlSet {
            table: "data".to_string(),
            key: "cache_ttl_sec".to_string(),
            value: TomlValue::Int(c.data.cache_ttl_sec as i64),
        },
    );
    sets.push(
        TomlSet { table: "mcp".to_string(), key: "enabled".to_string(), value: TomlValue::Bool(c.mcp.enabled) },
    );
    sets.push(set_str("mcp", "socket_path", &c.mcp.socket_path));
    assert(set_views(sets@) =~= config_edits(*c, watchlist@));
    rewrite(text, &sets)
}

} // verus!
