//! The CSV output format: comma-separated rows with the usual quoting
//! rule — a field that holds a comma, a double quote, or a line break is
//! put between double quotes, with inner quotes doubled.

use vstd::prelude::*;

use crate::formatters::cell_string;
use crate::formatters::collect_refs;
use crate::formatters::columns_of;
use crate::formatters::derefs;
use crate::formatters::infer_columns;
use crate::formatters::item_cell;
use crate::formatters::item_cell_string;
use crate::jsontext::compact_json;
use crate::strutil::push_char;
use crate::value::Value;

verus! {

/// Whether a CSV field must be quoted: it holds a comma, a double quote,
/// a newline or a carriage return.
pub open spec fn needs_quote(f: Seq<char>) -> bool {
    exists|i: int|
        0 <= i < f.len() && (f[i] == ',' || f[i] == '"' || f[i] == '\n' || f[i] == '\r')
}

/// A field's text with every double quote doubled.
pub open spec fn quotes_doubled(f: Seq<char>) -> Seq<char>
    decreases f.len(),
{
    if f.len() == 0 {
        Seq::empty()
    } else {
        quotes_doubled(f.drop_last()) + (if f.last() == '"' {
            "\"\""@
        } else {
            seq![f.last()]
        })
    }
}

/// One CSV field on the wire: quoted with doubled quotes when necessary,
/// verbatim otherwise.
pub open spec fn csv_field(f: Seq<char>) -> Seq<char> {
    if needs_quote(f) {
        "\""@ + quotes_doubled(f) + "\""@
    } else {
        f
    }
}

/// The header fields of a CSV row, comma-separated.
pub open spec fn csv_header_cells(cols: Seq<String>) -> Seq<char>
    decreases cols.len(),
{
    if cols.len() == 0 {
        Seq::empty()
    } else if cols.len() == 1 {
        csv_field(cols[0]@)
    } else {
        csv_header_cells(cols.drop_last()) + ","@ + csv_field(cols.last()@)
    }
}

/// One record's data fields, comma-separated.
pub open spec fn csv_data_cells(item: Value, cols: Seq<String>) -> Seq<char>
    decreases cols.len(),
{
    if cols.len() == 0 {
        Seq::empty()
    } else if cols.len() == 1 {
        csv_field(item_cell(item, cols[0]@))
    } else {
        csv_data_cells(item, cols.drop_last()) + ","@ + csv_field(item_cell(item, cols.last()@))
    }
}

/// The data rows of the CSV text, each ending in a newline.
pub open spec fn csv_rows(arr: Seq<Value>, cols: Seq<String>) -> Seq<char>
    decreases arr.len(),
{
    if arr.len() == 0 {
        Seq::empty()
    } else {
        csv_rows(arr.drop_last(), cols) + csv_data_cells(arr.last(), cols) + "\n"@
    }
}

/// The whole CSV text: one header row, then one row per record.
pub open spec fn csv_table(arr: Seq<Value>, cols: Seq<String>) -> Seq<char> {
    csv_header_cells(cols) + "\n"@ + csv_rows(arr, cols)
}

/// What the CSV formatter returns for each input shape: the fixed
/// no-data text for null and the empty array, a table over the inferred
/// columns otherwise, a top-level string as its native text, and any
/// other scalar in its usual form.
pub open spec fn csv_output(data: Value, out: Seq<char>) -> bool {
    match data {
        Value::Null => out == "No data to display"@,
        Value::Arr(a) => if a@.len() == 0 {
            out == "No data to display"@
        } else {
            exists|cols: Seq<String>|
                #[trigger] columns_of(a@, cols) && out == csv_table(a@, cols)
        },
        Value::Obj(_) => exists|cols: Seq<String>|
            #[trigger] columns_of(seq![data], cols) && out == csv_table(seq![data], cols),
        Value::Str(text) => out == text@,
        _ => out == compact_json(data),
    }
}

/// Decides whether a field needs CSV quoting.
fn field_needs_quote(f: &str) -> (b: bool)
    ensures
        b == needs_quote(f@),
{
    let n = f.unicode_len();
    let mut i: usize = 0;
    while i < n
        invariant
            i <= n,
            n == f@.len(),
            forall|j: int|
                0 <= j < i ==> !(f@[j] == ',' || f@[j] == '"' || f@[j] == '\n' || f@[j] == '\r'),
        decreases n - i,
    {
        let c = f.get_char(i);
        if c == ',' || c == '"' || c == '\n' || c == '\r' {
            return true;
        }
        i = i + 1;
    }
    proof {
        if needs_quote(f@) {
            let w = choose|w: int|
                0 <= w < f@.len() && (f@[w] == ',' || f@[w] == '"' || f@[w] == '\n' || f@[w]
                    == '\r');
        }
    }
    false
}

/// Appends one CSV field, quoting it when necessary.
fn write_csv_field(f: &str, out: &mut String)
    ensures
        final(out)@ == old(out)@ + csv_field(f@),
{
    if !field_needs_quote(f) {
        out.append(f);
        return ;
    }
    out.append("\"");
    let n = f.unicode_len();
    let mut i: usize = 0;
    proof {
        assert(f@.take(0) =~= Seq::<char>::empty());
    }
    while i < n
        invariant
            i <= n,
            n == f@.len(),
            out@ == old(out)@ + "\""@ + quotes_doubled(f@.take(i as int)),
        decreases n - i,
    {
        let c = f.get_char(i);
        if c == '"' {
            out.append("\"\"");
        } else {
            push_char(out, c);
        }
        proof {
            assert(f@.take(i + 1).drop_last() =~= f@.take(i as int));
            assert(f@.take(i + 1).last() == f@[i as int]);
            assert(out@ =~= old(out)@ + "\""@ + quotes_doubled(f@.take(i + 1)));
        }
        i = i + 1;
    }
    out.append("\"");
    proof {
        assert(f@.take(n as int) =~= f@);
        assert(out@ =~= old(out)@ + csv_field(f@));
    }
}

/// The CSV formatter.
pub struct CsvFormatter;

impl CsvFormatter {
    /// Renders one optional cell value with the shared rule set (no
    /// truncation in CSV).
    pub fn format_value(value: Option<&Value>) -> (r: String)
        ensures
            r@ == match value {
                Some(v) => crate::formatters::cell_text(*v),
                None => Seq::<char>::empty(),
            },
    {
        cell_string(value)
    }

    /// Renders the CSV text for the given items.
    fn format_array(items: &Vec<&Value>) -> (r: String)
        ensures
            exists|cols: Seq<String>|
                #[trigger] columns_of(derefs(items@), cols) && r@ == csv_table(
                    derefs(items@),
                    cols,
                ),
    {
        let ghost arr = derefs(items@);
        let cols = infer_columns(items);
        let mut out = String::new();
        let ncols = cols.len();
        let mut j: usize = 0;
        proof {
            assert(cols@.take(0) =~= Seq::<String>::empty());
        }
        while j < ncols
            invariant
                j <= ncols,
                ncols == cols@.len(),
                out@ == csv_header_cells(cols@.take(j as int)),
            decreases ncols - j,
        {
            if j > 0 {
                out.append(",");
            }
            write_csv_field(cols[j].as_str(), &mut out);
            proof {
                assert(cols@.take(j + 1).drop_last() =~= cols@.take(j as int));
                assert(cols@.take(j + 1).last() == cols@[j as int]);
                if j == 0 {
                    assert(csv_header_cells(cols@.take(1)) == csv_field(cols@.take(1)[0]@));
                }
                assert(out@ =~= csv_header_cells(cols@.take(j + 1)));
            }
            j = j + 1;
        }
        proof {
            assert(cols@.take(ncols as int) =~= cols@);
        }
        out.append("\n");
        let ghost after_header = csv_header_cells(cols@) + "\n"@;
        let nitems = items.len();
        let mut i: usize = 0;
        proof {
            assert(arr.take(0) =~= Seq::<Value>::empty());
        }
        while i < nitems
            invariant
                i <= nitems,
                nitems == items@.len(),
                arr == derefs(items@),
                ncols == cols@.len(),
                out@ == after_header + csv_rows(arr.take(i as int), cols@),
            decreases nitems - i,
        {
            let ghost row_start = out@;
            let mut j: usize = 0;
            proof {
                assert(cols@.take(0) =~= Seq::<String>::empty());
            }
            while j < ncols
                invariant
                    j <= ncols,
                    ncols == cols@.len(),
                    i < nitems,
                    nitems == items@.len(),
                    arr == derefs(items@),
                    out@ == row_start + csv_data_cells(arr[i as int], cols@.take(j as int)),
                decreases ncols - j,
            {
                if j > 0 {
                    out.append(",");
                }
                let cell = item_cell_string(items[i], &cols[j]);
                write_csv_field(cell.as_str(), &mut out);
                proof {
                    assert(cols@.take(j + 1).drop_last() =~= cols@.take(j as int));
                    assert(cols@.take(j + 1).last() == cols@[j as int]);
                    if j == 0 {
                        assert(csv_data_cells(arr[i as int], cols@.take(1)) == csv_field(
                            item_cell(arr[i as int], cols@.take(1)[0]@),
                        ));
                    }
                    assert(out@ =~= row_start + csv_data_cells(
                        arr[i as int],
                        cols@.take(j + 1),
                    ));
                }
                j = j + 1;
            }
            out.append("\n");
            proof {
                assert(cols@.take(ncols as int) =~= cols@);
                assert(arr.take(i + 1).drop_last() =~= arr.take(i as int));
                assert(arr.take(i + 1).last() == arr[i as int]);
                assert(out@ =~= after_header + csv_rows(arr.take(i + 1), cols@));
            }
            i = i + 1;
        }
        proof {
            assert(arr.take(nitems as int) =~= arr);
            assert(out@ =~= csv_table(arr, cols@));
        }
        out
    }

    /// Renders a value as CSV, or as the no-data text, or as its native
    /// scalar form.
    pub fn format(data: &Value) -> (r: String)
        ensures
            csv_output(*data, r@),
    {
        match data {
            Value::Null => String::from_str("No data to display"),
            Value::Arr(a) => {
                if a.len() == 0 {
                    String::from_str("No data to display")
                } else {
                    let items = collect_refs(a);
                    Self::format_array(&items)
                }
            },
            Value::Obj(_) => {
                let mut items: Vec<&Value> = Vec::new();
                items.push(data);
                proof {
                    assert(derefs(items@) =~= seq![*data]);
                }
                Self::format_array(&items)
            },
            Value::Str(text) => text.clone(),
            _ => crate::jsontext::to_compact_string(data),
        }
    }
}

/// A field holding a comma, a double quote or a line break is emitted
/// between double quotes with its inner quotes doubled; any other field is
/// emitted verbatim.
pub proof fn lemma_csv_field_quoting(f: Seq<char>)
    ensures
        needs_quote(f) ==> csv_field(f) == "\""@ + quotes_doubled(f) + "\""@,
        !needs_quote(f) ==> csv_field(f) == f,
{
}

} // verus!
