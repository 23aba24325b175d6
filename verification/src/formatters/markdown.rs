//! The Markdown output format: a pipe-delimited table with a `---`
//! separator row under the header. Pipes inside data cells are escaped;
//! header and separator rows never are.

use vstd::prelude::*;

use crate::formatters::cell_string;
use crate::formatters::collect_refs;
use crate::formatters::columns_of;
use crate::formatters::derefs;
use crate::formatters::infer_columns;
use crate::formatters::item_cell;
use crate::formatters::item_cell_string;
use crate::jsontext::compact_json;
use crate::strutil::push_char;
use crate::value::Value;

verus! {

/// How one character appears in a Markdown data cell: a pipe gets a
/// backslash, everything else stands for itself.
pub open spec fn pipe_esc_char(c: char) -> Seq<char> {
    if c == '|' {
        "\\|"@
    } else {
        seq![c]
    }
}

/// A cell text with every pipe escaped as `\|`.
pub open spec fn pipes_escaped(s: Seq<char>) -> Seq<char>
    decreases s.len(),
{
    if s.len() == 0 {
        Seq::empty()
    } else {
        pipes_escaped(s.drop_last()) + pipe_esc_char(s.last())
    }
}

/// The header cells of a Markdown table row, unescaped.
pub open spec fn md_header_cells(cols: Seq<String>) -> Seq<char>
    decreases cols.len(),
{
    if cols.len() == 0 {
        Seq::empty()
    } else {
        md_header_cells(cols.drop_last()) + " "@ + cols.last()@ + " |"@
    }
}

/// The separator cells of a Markdown table, one per column.
pub open spec fn md_sep_cells(n: nat) -> Seq<char>
    decreases n,
{
    if n == 0 {
        Seq::empty()
    } else {
        md_sep_cells((n - 1) as nat) + " --- |"@
    }
}

/// One record's data cells, each escaped.
pub open spec fn md_data_cells(item: Value, cols: Seq<String>) -> Seq<char>
    decreases cols.len(),
{
    if cols.len() == 0 {
        Seq::empty()
    } else {
        md_data_cells(item, cols.drop_last()) + " "@ + pipes_escaped(
            item_cell(item, cols.last()@),
        ) + " |"@
    }
}

/// The data rows of a Markdown table.
pub open spec fn md_rows(arr: Seq<Value>, cols: Seq<String>) -> Seq<char>
    decreases arr.len(),
{
    if arr.len() == 0 {
        Seq::empty()
    } else {
        md_rows(arr.drop_last(), cols) + "|"@ + md_data_cells(arr.last(), cols) + "\n"@
    }
}

/// The whole Markdown table: header row, separator row, data rows.
pub open spec fn md_table(arr: Seq<Value>, cols: Seq<String>) -> Seq<char> {
    "|"@ + md_header_cells(cols) + "\n"@ + "|"@ + md_sep_cells(cols.len()) + "\n"@ + md_rows(
        arr,
        cols,
    )
}

/// What the Markdown formatter returns for each input shape: the fixed
/// no-data text for null and the empty array, a table over the inferred
/// columns for a non-empty array, the same for a single object treated as
/// a one-element array, a top-level string as its native text, and any
/// other scalar in its usual form.
pub open spec fn md_output(data: Value, out: Seq<char>) -> bool {
    match data {
        Value::Null => out == "No data to display"@,
        Value::Arr(a) => if a@.len() == 0 {
            out == "No data to display"@
        } else {
            exists|cols: Seq<String>|
                #[trigger] columns_of(a@, cols) && out == md_table(a@, cols)
        },
        Value::Obj(_) => exists|cols: Seq<String>|
            #[trigger] columns_of(seq![data], cols) && out == md_table(seq![data], cols),
        Value::Str(text) => out == text@,
        _ => out == compact_json(data),
    }
}

/// The Markdown formatter.
pub struct MarkdownFormatter;

impl MarkdownFormatter {
    /// Escapes every pipe in a cell value as `\|`.
    pub fn escape_pipes(s: &str) -> (r: String)
        ensures
            r@ == pipes_escaped(s@),
    {
        let n = s.unicode_len();
        let mut out = String::new();
        let mut i: usize = 0;
        proof {
            assert(s@.take(0) =~= Seq::<char>::empty());
        }
        while i < n
            invariant
                i <= n,
                n == s@.len(),
                out@ == pipes_escaped(s@.take(i as int)),
            decreases n - i,
        {
            let c = s.get_char(i);
            if c == '|' {
                out.append("\\|");
            } else {
                push_char(&mut out, c);
            }
            proof {
                assert(s@.take(i + 1).drop_last() =~= s@.take(i as int));
                assert(s@.take(i + 1).last() == s@[i as int]);
                assert(out@ =~= pipes_escaped(s@.take(i + 1)));
            }
            i = i + 1;
        }
        proof {
            assert(s@.take(n as int) =~= s@);
        }
        out
    }

    /// Renders one optional cell value with the shared rule set (no
    /// truncation in Markdown).
    pub fn format_value(value: Option<&Value>) -> (r: String)
        ensures
            r@ == match value {
                Some(v) => crate::formatters::cell_text(*v),
                None => Seq::<char>::empty(),
            },
    {
        cell_string(value)
    }

    /// Renders the rows of a Markdown table for the given items.
    fn format_array(items: &Vec<&Value>) -> (r: String)
        ensures
            exists|cols: Seq<String>|
                #[trigger] columns_of(derefs(items@), cols) && r@ == md_table(
                    derefs(items@),
                    cols,
                ),
    {
        let ghost arr = derefs(items@);
        let cols = infer_columns(items);
        let mut out = String::from_str("|");
        let ncols = cols.len();
        let mut j: usize = 0;
        proof {
            assert(cols@.take(0) =~= Seq::<String>::empty());
        }
        while j < ncols
            invariant
                j <= ncols,
                ncols == cols@.len(),
                out@ == "|"@ + md_header_cells(cols@.take(j as int)),
            decreases ncols - j,
        {
            out.append(" ");
            out.append(cols[j].as_str());
            out.append(" |");
            proof {
                assert(cols@.take(j + 1).drop_last() =~= cols@.take(j as int));
                assert(cols@.take(j + 1).last() == cols@[j as int]);
                assert(out@ =~= "|"@ + md_header_cells(cols@.take(j + 1)));
            }
            j = j + 1;
        }
        proof {
            assert(cols@.take(ncols as int) =~= cols@);
        }
        out.append("\n");
        out.append("|");
        let ghost after_header = "|"@ + md_header_cells(cols@) + "\n"@ + "|"@;
        let mut j: usize = 0;
        while j < ncols
            invariant
                j <= ncols,
                ncols == cols@.len(),
                out@ == after_header + md_sep_cells(j as nat),
            decreases ncols - j,
        {
            out.append(" --- |");
            j = j + 1;
        }
        out.append("\n");
        let ghost after_sep = "|"@ + md_header_cells(cols@) + "\n"@ + "|"@ + md_sep_cells(
            cols@.len(),
        ) + "\n"@;
        let nitems = items.len();
        let mut i: usize = 0;
        proof {
            assert(arr.take(0) =~= Seq::<Value>::empty());
        }
        while i < nitems
            invariant
                i <= nitems,
                nitems == items@.len(),
                arr == derefs(items@),
                ncols == cols@.len(),
                out@ == after_sep + md_rows(arr.take(i as int), cols@),
            decreases nitems - i,
        {
            out.append("|");
            let ghost row_start = out@;
            let mut j: usize = 0;
            proof {
                assert(cols@.take(0) =~= Seq::<String>::empty());
            }
            while j < ncols
                invariant
                    j <= ncols,
                    ncols == cols@.len(),
                    i < nitems,
                    nitems == items@.len(),
                    arr == derefs(items@),
                    out@ == row_start + md_data_cells(arr[i as int], cols@.take(j as int)),
                decreases ncols - j,
            {
                out.append(" ");
                let cell = item_cell_string(items[i], &cols[j]);
                let escaped = Self::escape_pipes(cell.as_str());
                out.append(escaped.as_str());
                out.append(" |");
                proof {
                    assert(cols@.take(j + 1).drop_last() =~= cols@.take(j as int));
                    assert(cols@.take(j + 1).last() == cols@[j as int]);
                    assert(out@ =~= row_start + md_data_cells(arr[i as int], cols@.take(j + 1)));
                }
                j = j + 1;
            }
            out.append("\n");
            proof {
                assert(cols@.take(ncols as int) =~= cols@);
                assert(arr.take(i + 1).drop_last() =~= arr.take(i as int));
                assert(arr.take(i + 1).last() == arr[i as int]);
                assert(out@ =~= after_sep + md_rows(arr.take(i + 1), cols@));
            }
            i = i + 1;
        }
        proof {
            assert(arr.take(nitems as int) =~= arr);
            assert(out@ =~= md_table(arr, cols@));
        }
        out
    }

    /// Renders a value as a Markdown table, or as the no-data text, or as
    /// its native scalar form.
    pub fn format(data: &Value) -> (r: String)
        ensures
            md_output(*data, r@),
    {
        match data {
            Value::Null => String::from_str("No data to display"),
            Value::Arr(a) => {
                if a.len() == 0 {
                    String::from_str("No data to display")
                } else {
                    let items = collect_refs(a);
                    Self::format_array(&items)
                }
            },
            Value::Obj(_) => {
                let mut items: Vec<&Value> = Vec::new();
                items.push(data);
                proof {
                    assert(derefs(items@) =~= seq![*data]);
                }
                Self::format_array(&items)
            },
            Value::Str(text) => text.clone(),
            _ => crate::jsontext::to_compact_string(data),
        }
    }
}

/// A cell without pipes passes through the Markdown escape unchanged.
pub proof fn lemma_escape_leaves_pipe_free_cells(s: Seq<char>)
    requires
        forall|i: int| 0 <= i < s.len() ==> s[i] != '|',
    ensures
        pipes_escaped(s) == s,
    decreases s.len(),
{
    if s.len() == 0 {
        assert(pipes_escaped(s) =~= s);
    } else {
        lemma_escape_leaves_pipe_free_cells(s.drop_last());
        assert(pipes_escaped(s) =~= s.drop_last() + seq![s.last()]);
        assert(s.drop_last() + seq![s.last()] =~= s);
    }
}

} // verus!
