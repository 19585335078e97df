//! Rendering results: pretty JSON, or a table of the rows a result holds.
use vstd::prelude::*;
use vstd::string::*;

use crate::json::{
    compact_text, entries_view, items_view, json_compact, json_pretty, lemma_view_array,
    lemma_view_object, lookup, pretty_text, Json, JsonNumber, JsonV, NumberV,
};
use crate::text::{decimal, i64_text, int_text, u64_text};

verus! {

broadcast use vstd::string::group_string_axioms;

/// The text that the `tabled` crate draws (rounded style) for these records,
/// the first of which is the header.
pub uninterp spec fn table_text(records: Seq<Seq<Seq<char>>>) -> Seq<char>;

/// Draws records with `tabled::builder::Builder` in the rounded style. The
/// contract names the drawing only.
#[verifier::external_body]
fn draw_table(records: &Vec<Vec<String>>) -> (r: String)
    ensures
        r@ == table_text(records.deep_view()),
{
    let mut builder = tabled::builder::Builder::default();
    for record in records {
        builder.push_record(record.clone());
    }
    let mut table = builder.build();
    table.with(tabled::settings::Style::rounded());
    table.to_string()
}

/// The text shown in a table cell for a value.
pub open spec fn cell_text(v: JsonV) -> Seq<char> {
    match v {
        JsonV::Null => Seq::empty(),
        JsonV::Str(s) => s,
        JsonV::Bool(b) => if b {
            "true"@
        } else {
            "false"@
        },
        JsonV::Number(NumberV::PosInt(u)) => decimal(u as nat),
        JsonV::Number(NumberV::NegInt(i)) => int_text(i as int),
        JsonV::Number(NumberV::Float(t)) => t,
        _ => json_compact(v),
    }
}

/// The text shown in a table cell for a value.
pub fn stringify_cell(v: &Json) -> (r: String)
    ensures
        r@ == cell_text(v@),
{
    match v {
        Json::Null => String::new(),
        Json::Str(s) => s.clone(),
        Json::Bool(b) => if *b {
            String::from_str("true")
        } else {
            String::from_str("false")
        },
        Json::Number(JsonNumber::PosInt(u)) => u64_text(*u),
        Json::Number(JsonNumber::NegInt(i)) => i64_text(*i),
        Json::Number(JsonNumber::Float(t)) => t.clone(),
        _ => compact_text(v),
    }
}

/// `v` has an array under key `k`.
pub open spec fn array_member(v: JsonV, k: Seq<char>) -> bool {
    lookup(v, k) matches Some(JsonV::Array(_))
}

/// The rows a result holds: the value itself when it is an array, else the
/// first of its `items`, `results`, `rows`, `data` members that is an array,
/// else the value itself.
pub open spec fn pick_array_view(v: JsonV) -> JsonV {
    if v is Array {
        v
    } else if array_member(v, "items"@) {
        lookup(v, "items"@)->0
    } else if array_member(v, "results"@) {
        lookup(v, "results"@)->0
    } else if array_member(v, "rows"@) {
        lookup(v, "rows"@)->0
    } else if array_member(v, "data"@) {
        lookup(v, "data"@)->0
    } else {
        v
    }
}

fn array_under<'a>(v: &'a Json, k: &str) -> (r: Option<&'a Json>)
    ensures
        match r {
            Some(x) => array_member(v@, k@) && lookup(v@, k@) == Some(x@),
            None => !array_member(v@, k@),
        },
{
    match v.get(k) {
        Some(x) => match x {
            Json::Array(_) => Some(x),
            _ => None,
        },
        None => None,
    }
}

/// Unwraps the rows of a result (see [`pick_array_view`]).
pub fn pick_array(v: &Json) -> (r: Json)
    ensures
        r@ == pick_array_view(v@),
{
    if v.is_array() {
        return v.duplicate();
    }
    if let Some(x) = array_under(v, "items") {
        return x.duplicate();
    }
    if let Some(x) = array_under(v, "results") {
        return x.duplicate();
    }
    if let Some(x) = array_under(v, "rows") {
        return x.duplicate();
    }
    if let Some(x) = array_under(v, "data") {
        return x.duplicate();
    }
    v.duplicate()
}

/// The cells of a row, one per column: the cell text of the row's value
/// under that column, or empty when the row lacks it.
pub open spec fn row_cells(cols: Seq<Seq<char>>, row: JsonV) -> Seq<Seq<char>> {
    Seq::new(
        cols.len(),
        |c: int|
            match lookup(row, cols[c]) {
                Some(x) => cell_text(x),
                None => Seq::empty(),
            },
    )
}

/// Every row is an object.
pub open spec fn all_objects(rows: Seq<JsonV>) -> bool {
    forall|i: int| 0 <= i < rows.len() ==> (#[trigger] rows[i]) is Object
}

/// One record per row, in order.
pub open spec fn table_rows(cols: Seq<Seq<char>>, rows: Seq<JsonV>) -> Seq<Seq<Seq<char>>> {
    Seq::new(rows.len(), |i: int| row_cells(cols, rows[i]))
}

/// The column names: the keys of the first row, in order.
pub open spec fn columns_of(first: Seq<(Seq<char>, JsonV)>) -> Seq<Seq<char>> {
    Seq::new(first.len(), |i: int| first[i].0)
}

/// What is printed for a result in human mode: for a non-empty array of
/// objects, a table whose columns are the first row's keys; `(no rows)` for
/// an empty array; pretty JSON for anything else.
pub open spec fn table_view(v: JsonV) -> Seq<char> {
    match pick_array_view(v) {
        JsonV::Array(rows) => if rows.len() == 0 {
            "(no rows)"@
        } else if all_objects(rows) {
            match rows[0] {
                JsonV::Object(first) => table_text(
                    seq![columns_of(first)] + table_rows(columns_of(first), rows),
                ),
                _ => json_pretty(v),
            }
        } else {
            json_pretty(v)
        },
        _ => json_pretty(v),
    }
}

/// The cells of one row.
fn cells_of(columns: &Vec<String>, row: &Json) -> (r: Vec<String>)
    ensures
        r.deep_view() == row_cells(columns.deep_view(), row@),
{
    let mut cells: Vec<String> = Vec::new();
    let mut c: usize = 0;
    while c < columns.len()
        invariant
            c <= columns.len(),
            cells@.len() == c,
            forall|k: int|
                0 <= k < c ==> #[trigger] cells@[k]@ == row_cells(columns.deep_view(), row@)[k],
        decreases columns.len() - c,
    {
        let cell = match row.get(columns[c].as_str()) {
            Some(x) => stringify_cell(x),
            None => String::new(),
        };
        cells.push(cell);
        c = c + 1;
    }
    assert(cells.deep_view() =~= row_cells(columns.deep_view(), row@));
    cells
}

/// Renders a result for people: a table of its rows, `(no rows)`, or
/// pretty JSON when it holds no rows of objects.
pub fn render_table(value: &Json) -> (r: String)
    ensures
        r@ == table_view(value@),
{
    let rows_value = pick_array(value);
    let rows = match &rows_value {
        Json::Array(rows) => rows,
        _ => {
            return pretty_text(value);
        },
    };
    proof {
        lemma_view_array(*rows);
    }
    let ghost rv = items_view(rows@);
    if rows.len() == 0 {
        return String::from_str("(no rows)");
    }
    let mut k: usize = 0;
    while k < rows.len()
        invariant
            k <= rows.len(),
            rv == items_view(rows@),
            forall|m: int| 0 <= m < k ==> (#[trigger] rv[m]) is Object,
            pick_array_view(value@) == JsonV::Array(rv),
            rv.len() > 0,
        decreases rows.len() - k,
    {
        match &rows[k] {
            Json::Object(_) => {},
            other => {
                assert(!(rv[k as int] is Object));
                return pretty_text(value);
            },
        }
        k = k + 1;
    }
    assert(all_objects(rv));
    let first = match &rows[0] {
        Json::Object(first) => first,
        other => {
            return pretty_text(value);
        },
    };
    proof {
        lemma_view_object(*first);
    }
    let mut columns: Vec<String> = Vec::new();
    let mut i: usize = 0;
    while i < first.len()
        invariant
            i <= first.len(),
            columns@.len() == i,
            forall|k: int| 0 <= k < i ==> #[trigger] columns@[k]@ == first@[k].0@,
        decreases first.len() - i,
    {
        columns.push(first[i].0.clone());
        i = i + 1;
    }
    let ghost cols = columns_of(entries_view(first@));
    assert(columns.deep_view() =~= cols);
    let mut records: Vec<Vec<String>> = Vec::new();
    records.push(columns.clone());
    let mut j: usize = 0;
    while j < rows.len()
        invariant
            j <= rows.len(),
            rv == items_view(rows@),
            cols == columns.deep_view(),
            records.deep_view() == seq![cols] + table_rows(cols, rv.take(j as int)),
        decreases rows.len() - j,
    {
        let cells = cells_of(&columns, &rows[j]);
        let ghost before = records.deep_view();
        records.push(cells);
        assert(records.deep_view() =~= before.push(row_cells(cols, rows@[j as int]@)));
        assert(records.deep_view() =~= seq![cols] + table_rows(cols, rv.take(j + 1)));
        j = j + 1;
    }
    assert(rv.take(rows.len() as int) =~= rv);
    draw_table(&records)
}

/// What is printed for a result: pretty JSON in JSON mode, else the table view.
pub open spec fn render_view(v: JsonV, json: bool) -> Seq<char> {
    if json {
        json_pretty(v)
    } else {
        table_view(v)
    }
}

/// Renders a result as JSON (`json`) or for people.
pub fn render(value: &Json, json: bool) -> (r: String)
    ensures
        r@ == render_view(value@, json),
{
    if json {
        pretty_text(value)
    } else {
        render_table(value)
    }
}

/// A table has one record per row, and every record has one cell per
/// column.
pub proof fn law_records_fill_every_column(cols: Seq<Seq<char>>, rows: Seq<JsonV>)
    ensures
        table_rows(cols, rows).len() == rows.len(),
        forall|i: int|
            0 <= i < table_rows(cols, rows).len() ==> (#[trigger] table_rows(cols, rows)[i]).len()
                == cols.len(),
{
}

/// The members under which a result may wrap its rows, in the order they are
/// tried.
pub open spec fn row_keys() -> Seq<Seq<char>> {
    seq!["items"@, "results"@, "rows"@, "data"@]
}

/// The `i`-th of [`row_keys`] is the first under which `v` holds an array.
pub open spec fn first_rows_key(v: JsonV, i: int) -> bool {
    &&& 0 <= i < row_keys().len()
    &&& array_member(v, row_keys()[i])
    &&& forall|j: int| 0 <= j < i ==> !array_member(v, #[trigger] row_keys()[j])
}

/// An array is its own rows. A value that is not an array gives the array it
/// holds under the first of `items`, `results`, `rows`, `data` that holds
/// one, and is left as it is when none does.
pub proof fn law_rows_come_from_first_array_member(v: JsonV)
    ensures
        v is Array ==> pick_array_view(v) == v,
        forall|i: int|
            !(v is Array) && #[trigger] first_rows_key(v, i) ==> pick_array_view(v) == lookup(
                v,
                row_keys()[i],
            )->0,
        !(v is Array) && (forall|j: int| 0 <= j < row_keys().len() ==> !array_member(v, #[trigger] row_keys()[j]))
            ==> pick_array_view(v) == v,
{
    assert(row_keys()[0] == "items"@ && row_keys()[1] == "results"@ && row_keys()[2] == "rows"@
        && row_keys()[3] == "data"@);
}

/// In human mode, a result that wraps a non-empty array of objects under the
/// first of `items`, `results`, `rows`, `data` that holds an array is drawn
/// as a table of those rows, whose columns are the first row's keys.
pub proof fn law_wrapped_rows_make_a_table(v: JsonV, i: int)
    requires
        !(v is Array),
        first_rows_key(v, i),
        lookup(v, row_keys()[i])->0->Array_0.len() > 0,
        all_objects(lookup(v, row_keys()[i])->0->Array_0),
    ensures
        ({
            let rows = lookup(v, row_keys()[i])->0->Array_0;
            let cols = columns_of(rows[0]->Object_0);
            render_view(v, false) == table_text(seq![cols] + table_rows(cols, rows))
        }),
{
    law_rows_come_from_first_array_member(v);
    let rows = lookup(v, row_keys()[i])->0->Array_0;
    assert(rows[0] is Object);
}

/// In JSON mode a result is printed as pretty JSON. In human mode: rows
/// that are an empty array print `(no rows)`; rows that are not all objects,
/// or a result holding no rows, print pretty JSON.
pub proof fn law_render_fallbacks(v: JsonV)
    ensures
        render_view(v, true) == json_pretty(v),
        pick_array_view(v) == JsonV::Array(Seq::empty()) ==> render_view(v, false)
            == "(no rows)"@,
        (pick_array_view(v) matches JsonV::Array(rows) && rows.len() > 0 && !all_objects(rows))
            ==> render_view(v, false) == json_pretty(v),
        !(pick_array_view(v) is Array) ==> render_view(v, false) == json_pretty(v),
{
}

/// A cell shows nothing for `null`, a string as it is, `true` or `false`
/// for a boolean, and an integer in decimal; arrays and objects show as
/// compact JSON.
pub proof fn law_cell_texts(s: Seq<char>, u: u64, items: Seq<JsonV>, es: Seq<(Seq<char>, JsonV)>)
    ensures
        cell_text(JsonV::Null) == Seq::<char>::empty(),
        cell_text(JsonV::Str(s)) == s,
        cell_text(JsonV::Bool(true)) == "true"@,
        cell_text(JsonV::Bool(false)) == "false"@,
        cell_text(JsonV::Number(NumberV::PosInt(u))) == decimal(u as nat),
        cell_text(JsonV::Array(items)) == json_compact(JsonV::Array(items)),
        cell_text(JsonV::Object(es)) == json_compact(JsonV::Object(es)),
{
}

} // verus!
