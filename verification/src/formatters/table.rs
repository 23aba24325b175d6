//! The table output format: a bordered, rounded-style grid. The grid
//! layout itself comes from the tabled crate; what goes into every cell —
//! the shared rule set plus the 50-character truncation of array and
//! object cells — is decided and proved here.

use vstd::prelude::*;

use crate::formatters::cell_string;
use crate::formatters::cell_text;
use crate::formatters::collect_refs;
use crate::formatters::columns_of;
use crate::formatters::derefs;
use crate::formatters::infer_columns;
use crate::formatters::item_cell_string;
use crate::jsontext::compact_json;
use crate::strutil::push_char;
use crate::value::has_key;
use crate::value::spec_lookup;
use crate::value::Value;

verus! {

/// A text cut to at most `max` characters, with a trailing ellipsis when
/// something was cut.
pub open spec fn truncated(s: Seq<char>, max: int) -> Seq<char> {
    if s.len() <= max {
        s
    } else {
        s.take(max) + "..."@
    }
}

/// The text of one cell value in the table format: as the shared rule
/// set, except that array and object serializations are cut to 50
/// characters.
pub open spec fn table_cell_text(v: Value) -> Seq<char> {
    match v {
        Value::Arr(_) => truncated(compact_json(v), 50),
        Value::Obj(_) => truncated(compact_json(v), 50),
        _ => cell_text(v),
    }
}

/// The cell of one record under one column in the table format.
pub open spec fn table_item_cell(item: Value, key: Seq<char>) -> Seq<char> {
    match item {
        Value::Obj(ms) => if has_key(ms@, key) {
            table_cell_text(spec_lookup(ms@, key))
        } else {
            Seq::empty()
        },
        _ => Seq::empty(),
    }
}

/// The grid's cell texts: the column names as the first row, then one row
/// per record.
pub open spec fn table_rows(arr: Seq<Value>, cols: Seq<String>) -> Seq<Seq<Seq<char>>> {
    seq![Seq::new(cols.len(), |j: int| cols[j]@)] + Seq::new(
        arr.len(),
        |i: int| Seq::new(cols.len(), |j: int| table_item_cell(arr[i], cols[j]@)),
    )
}

/// The text that the tabled crate's rounded-style grid gives to a list of
/// rows; it depends on the cell texts alone.
pub uninterp spec fn grid_of(rows: Seq<Seq<Seq<char>>>) -> Seq<char>;

/// Relies on tabled's Builder, rounded Style and the grid's Display: lays
/// the rows out as a bordered grid, one record per row.
#[verifier::external_body]
fn render_grid(rows: &Vec<Vec<String>>) -> (r: String)
    ensures
        r@ == grid_of(rows.deep_view()),
{
    let mut builder = tabled::builder::Builder::new();
    for row in rows.iter() {
        builder.push_record(row.iter().map(|c| c.as_str()));
    }
    let mut grid = builder.build();
    grid.with(tabled::settings::Style::rounded());
    grid.to_string()
}

/// What the table formatter returns for each input shape: the fixed
/// no-data text for null, the empty array and arrays without any object
/// keys; otherwise the grid over the inferred columns; a top-level string
/// as its native text, any other scalar in its usual form.
pub open spec fn table_output(data: Value, out: Seq<char>) -> bool {
    match data {
        Value::Null => out == "No data to display"@,
        Value::Arr(a) => if a@.len() == 0 {
            out == "No data to display"@
        } else {
            exists|cols: Seq<String>|
                #[trigger] columns_of(a@, cols) && out == (if cols.len() == 0 {
                    "No data to display"@
                } else {
                    grid_of(table_rows(a@, cols))
                })
        },
        Value::Obj(_) => exists|cols: Seq<String>|
            #[trigger] columns_of(seq![data], cols) && out == (if cols.len() == 0 {
                "No data to display"@
            } else {
                grid_of(table_rows(seq![data], cols))
            }),
        Value::Str(text) => out == text@,
        _ => out == compact_json(data),
    }
}

/// The table formatter.
pub struct TableFormatter;

impl TableFormatter {
    /// Cuts a string to at most `max_len` characters, appending an
    /// ellipsis when something was cut.
    pub fn truncate_string(s: &str, max_len: usize) -> (r: String)
        ensures
            r@ == truncated(s@, max_len as int),
    {
        let n = s.unicode_len();
        if n <= max_len {
            String::from_str(s)
        } else {
            let mut out = String::new();
            let mut i: usize = 0;
            proof {
                assert(s@.take(0) =~= Seq::<char>::empty());
            }
            while i < max_len
                invariant
                    i <= max_len,
                    max_len < n,
                    n == s@.len(),
                    out@ == s@.take(i as int),
                decreases max_len - i,
            {
                push_char(&mut out, s.get_char(i));
                proof {
                    assert(out@ =~= s@.take(i + 1));
                }
                i = i + 1;
            }
            out.append("...");
            out
        }
    }

    /// Renders one optional cell value: the shared rule set, with array
    /// and object serializations cut to 50 characters.
    pub fn format_value(value: Option<&Value>) -> (r: String)
        ensures
            r@ == match value {
                Some(v) => table_cell_text(*v),
                None => Seq::<char>::empty(),
            },
    {
        match value {
            Some(v) => {
                if v.is_array() || v.is_object() {
                    let s = crate::jsontext::to_compact_string(v);
                    Self::truncate_string(s.as_str(), 50)
                } else {
                    cell_string(value)
                }
            },
            None => String::new(),
        }
    }

    /// Renders one record's cell under one column in the table format.
    fn table_cell(item: &Value, key: &String) -> (r: String)
        ensures
            r@ == table_item_cell(*item, key@),
    {
        let found = crate::value::lookup(item, key.as_str());
        Self::format_value(found)
    }

    /// Builds the grid rows and renders them.
    fn format_array(items: &Vec<&Value>) -> (r: String)
        ensures
            exists|cols: Seq<String>|
                #[trigger] columns_of(derefs(items@), cols) && r@ == (if cols.len() == 0 {
                    "No data to display"@
                } else {
                    grid_of(table_rows(derefs(items@), cols))
                }),
    {
        let ghost arr = derefs(items@);
        let cols = infer_columns(items);
        if cols.len() == 0 {
            return String::from_str("No data to display");
        }
        let ncols = cols.len();
        let mut header: Vec<String> = Vec::new();
        let mut j: usize = 0;
        while j < ncols
            invariant
                j <= ncols,
                ncols == cols@.len(),
                header@.len() == j,
                forall|w: int| 0 <= w < j ==> header@[w]@ == cols@[w]@,
            decreases ncols - j,
        {
            header.push(cols[j].clone());
            j = j + 1;
        }
        let mut rows: Vec<Vec<String>> = Vec::new();
        rows.push(header);
        let nitems = items.len();
        let mut i: usize = 0;
        while i < nitems
            invariant
                i <= nitems,
                nitems == items@.len(),
                arr == derefs(items@),
                ncols == cols@.len(),
                rows@.len() == i + 1,
                rows@[0]@.len() == ncols,
                forall|w: int| 0 <= w < ncols ==> rows@[0]@[w]@ == cols@[w]@,
                forall|v: int|
                    1 <= v <= i ==> (#[trigger] rows@[v])@.len() == ncols && forall|w: int|
                        0 <= w < ncols ==> rows@[v]@[w]@ == table_item_cell(
                            arr[v - 1],
                            cols@[w]@,
                        ),
            decreases nitems - i,
        {
            let mut row: Vec<String> = Vec::new();
            let mut j: usize = 0;
            while j < ncols
                invariant
                    j <= ncols,
                    ncols == cols@.len(),
                    i < nitems,
                    nitems == items@.len(),
                    arr == derefs(items@),
                    row@.len() == j,
                    forall|w: int|
                        0 <= w < j ==> row@[w]@ == table_item_cell(arr[i as int], cols@[w]@),
                decreases ncols - j,
            {
                row.push(Self::table_cell(items[i], &cols[j]));
                j = j + 1;
            }
            rows.push(row);
            i = i + 1;
        }
        proof {
            assert(rows.deep_view() =~~= table_rows(arr, cols@));
        }
        render_grid(&rows)
    }

    /// Renders a value as a bordered table, or as the no-data text, or as
    /// its native scalar form.
    pub fn format(data: &Value) -> (r: String)
        ensures
            table_output(*data, r@),
    {
        match data {
            Value::Null => String::from_str("No data to display"),
            Value::Arr(a) => {
                if a.len() == 0 {
                    String::from_str("No data to display")
                } else {
                    let items = collect_refs(a);
                    Self::format_array(&items)
                }
            },
            Value::Obj(_) => {
                let mut items: Vec<&Value> = Vec::new();
                items.push(data);
                proof {
                    assert(derefs(items@) =~= seq![*data]);
                }
                Self::format_array(&items)
            },
            Value::Str(text) => text.clone(),
            _ => crate::jsontext::to_compact_string(data),
        }
    }
}

} // verus!
