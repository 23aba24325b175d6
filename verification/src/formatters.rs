//! The rendering pipeline: one shared column-inference and cell-formatting
//! rule set, and four output formats built on it.

pub mod csv_formatter;
pub mod json;
pub mod markdown;
pub mod table;

use vstd::prelude::*;

use crate::jsontext::compact_json;
use crate::strutil::lemma_lex_transitive;
use crate::strutil::lemma_lex_trichotomy;
use crate::strutil::lex_lt;
use crate::strutil::str_lex_lt;
use crate::value::has_key;
use crate::value::spec_lookup;
use crate::value::Value;

verus! {

/// The shared text of one cell value: nothing for null, strings verbatim,
/// numbers and booleans in their usual form, arrays and objects as compact
/// JSON.
pub open spec fn cell_text(v: Value) -> Seq<char> {
    match v {
        Value::Null => Seq::empty(),
        Value::Bool(b) => if b {
            "true"@
        } else {
            "false"@
        },
        Value::Num(s) => s@,
        Value::Str(s) => s@,
        Value::Arr(_) => compact_json(v),
        Value::Obj(_) => compact_json(v),
    }
}

/// The cell of one record under one column: the formatted value when the
/// record is an object holding the key, empty otherwise.
pub open spec fn item_cell(item: Value, key: Seq<char>) -> Seq<char> {
    match item {
        Value::Obj(ms) => if has_key(ms@, key) {
            cell_text(spec_lookup(ms@, key))
        } else {
            Seq::empty()
        },
        _ => Seq::empty(),
    }
}

/// Renders the shared text of an optional cell value.
pub fn cell_string(v: Option<&Value>) -> (r: String)
    ensures
        r@ == match v {
            Some(x) => cell_text(*x),
            None => Seq::<char>::empty(),
        },
{
    match v {
        None => String::new(),
        Some(Value::Null) => String::new(),
        Some(Value::Bool(b)) => {
            if *b {
                String::from_str("true")
            } else {
                String::from_str("false")
            }
        },
        Some(Value::Num(s)) => s.clone(),
        Some(Value::Str(s)) => s.clone(),
        Some(x) => crate::jsontext::to_compact_string(x),
    }
}

/// The values a list of references points at.
pub open spec fn derefs(s: Seq<&Value>) -> Seq<Value> {
    Seq::new(s.len(), |i: int| *s[i])
}

/// Collects references to an array's elements.
pub fn collect_refs<'a>(arr: &'a Vec<Value>) -> (r: Vec<&'a Value>)
    ensures
        derefs(r@) == arr@,
{
    let n = arr.len();
    let mut refs: Vec<&Value> = Vec::new();
    let mut i: usize = 0;
    while i < n
        invariant
            i <= n,
            n == arr@.len(),
            refs@.len() == i,
            forall|j: int| 0 <= j < i ==> refs@[j] == &arr@[j],
        decreases n - i,
    {
        refs.push(&arr[i]);
        i = i + 1;
    }
    proof {
        assert(derefs(refs@) =~= arr@);
    }
    refs
}

/// Renders one record's cell under one column, with the shared rule set.
pub fn item_cell_string(item: &Value, key: &String) -> (r: String)
    ensures
        r@ == item_cell(*item, key@),
{
    let found = crate::value::lookup(item, key.as_str());
    cell_string(found)
}

/// Whether some string in the list reads `k`.
pub open spec fn str_in(ss: Seq<String>, k: Seq<char>) -> bool {
    exists|j: int| 0 <= j < ss.len() && ss[j]@ == k
}

/// Strictly ascending lexicographic order, so no string twice.
pub open spec fn strictly_sorted(ss: Seq<String>) -> bool {
    forall|a: int, b: int| 0 <= a < b < ss.len() ==> lex_lt(ss[a]@, ss[b]@)
}

/// Whether `k` is a key of some object element of the array.
pub open spec fn is_col_key(arr: Seq<Value>, k: Seq<char>) -> bool {
    exists|i: int|
        0 <= i < arr.len() && ((#[trigger] arr[i]) matches Value::Obj(ms) && has_key(ms@, k))
}

/// What column inference returns for an array: the strings are strictly
/// sorted (so each appears once), and they are exactly the keys of the
/// array's object elements.
pub open spec fn columns_of(arr: Seq<Value>, cols: Seq<String>) -> bool {
    &&& strictly_sorted(cols)
    &&& forall|k: Seq<char>| #[trigger] str_in(cols, k) <==> is_col_key(arr, k)
}

/// Two strictly sorted lists with the same members are the same list: the
/// inferred column order depends on the key set alone, never on the order
/// in which any record presented its fields.
pub proof fn lemma_sorted_keys_unique(a: Seq<String>, b: Seq<String>)
    requires
        strictly_sorted(a),
        strictly_sorted(b),
        forall|k: Seq<char>| #![trigger str_in(a, k)] #![trigger str_in(b, k)] str_in(a, k)
            <==> str_in(b, k),
    ensures
        a.len() == b.len(),
        forall|i: int| 0 <= i < a.len() ==> a[i]@ == b[i]@,
    decreases a.len(),
{
    if a.len() == 0 {
        if b.len() > 0 {
            assert(str_in(b, b[0]@));
            assert(str_in(a, b[0]@));
        }
    } else if b.len() == 0 {
        assert(str_in(a, a[0]@));
        assert(str_in(b, a[0]@));
    } else {
        assert(str_in(b, a[0]@)) by {
            assert(str_in(a, a[0]@));
        }
        assert(str_in(a, b[0]@)) by {
            assert(str_in(b, b[0]@));
        }
        let ja = choose|j: int| 0 <= j < b.len() && b[j]@ == a[0]@;
        let jb = choose|j: int| 0 <= j < a.len() && a[j]@ == b[0]@;
        assert(a[0]@ == b[0]@) by {
            if ja > 0 {
                assert(lex_lt(b[0]@, b[ja]@));
            }
            if jb > 0 {
                assert(lex_lt(a[0]@, a[jb]@));
            }
            if ja > 0 && jb > 0 {
                lemma_lex_transitive(b[0]@, a[0]@, b[0]@);
                crate::strutil::lemma_lex_irreflexive(b[0]@);
            }
        }
        let a1 = a.drop_first();
        let b1 = b.drop_first();
        assert forall|k: Seq<char>| #[trigger] str_in(a1, k) implies str_in(b1, k) by {
            let j = choose|j: int| 0 <= j < a1.len() && a1[j]@ == k;
            assert(a[j + 1]@ == k);
            assert(str_in(a, k));
            let w = choose|w: int| 0 <= w < b.len() && b[w]@ == k;
            if w == 0 {
                assert(lex_lt(a[0]@, a[j + 1]@));
                crate::strutil::lemma_lex_irreflexive(a[0]@);
            }
            assert(b1[w - 1]@ == k);
        }
        assert forall|k: Seq<char>| #[trigger] str_in(b1, k) implies str_in(a1, k) by {
            let j = choose|j: int| 0 <= j < b1.len() && b1[j]@ == k;
            assert(b[j + 1]@ == k);
            assert(str_in(b, k));
            let w = choose|w: int| 0 <= w < a.len() && a[w]@ == k;
            if w == 0 {
                assert(lex_lt(b[0]@, b[j + 1]@));
                crate::strutil::lemma_lex_irreflexive(b[0]@);
            }
            assert(a1[w - 1]@ == k);
        }
        assert(strictly_sorted(a1)) by {
            assert(forall|x: int, y: int|
                0 <= x < y < a1.len() ==> lex_lt(a[x + 1]@, a[y + 1]@) && a1[x]@ == a[x + 1]@
                    && a1[y]@ == a[y + 1]@);
        }
        assert(strictly_sorted(b1)) by {
            assert(forall|x: int, y: int|
                0 <= x < y < b1.len() ==> lex_lt(b[x + 1]@, b[y + 1]@) && b1[x]@ == b[x + 1]@
                    && b1[y]@ == b[y + 1]@);
        }
        lemma_sorted_keys_unique(a1, b1);
        assert forall|i: int| 0 <= i < a.len() implies a[i]@ == b[i]@ by {
            if i > 0 {
                assert(a1[i - 1]@ == b1[i - 1]@);
            }
        }
    }
}

/// The number of leading columns lexicographically before `key`.
fn lower_bound(cols: &Vec<String>, key: &String) -> (i: usize)
    ensures
        i <= cols@.len(),
        forall|j: int| 0 <= j < i ==> lex_lt(cols@[j]@, key@),
        i < cols@.len() ==> !lex_lt(cols@[i as int]@, key@),
{
    let n = cols.len();
    let mut i: usize = 0;
    while i < n
        invariant
            i <= n,
            n == cols@.len(),
            forall|j: int| 0 <= j < i ==> lex_lt(cols@[j]@, key@),
        decreases n - i,
    {
        if !str_lex_lt(cols[i].as_str(), key.as_str()) {
            return i;
        }
        i = i + 1;
    }
    n
}

/// Inserts a key into a sorted column list unless it is already there.
fn insert_sorted_unique(cols: &mut Vec<String>, key: &String)
    requires
        strictly_sorted(old(cols)@),
    ensures
        strictly_sorted(final(cols)@),
        forall|k: Seq<char>| #[trigger]
            str_in(final(cols)@, k) <==> (str_in(old(cols)@, k) || k == key@),
{
    let i = lower_bound(cols, key);
    if i < cols.len() {
        if cols[i].eq(key) {
            proof {
                assert(str_in(cols@, key@)) by {
                    assert(cols@[i as int]@ == key@);
                }
            }
            return ;
        }
    }
    proof {
        if i < cols@.len() {
            lemma_lex_trichotomy(cols@[i as int]@, key@);
        }
    }
    let ghost old_cols = cols@;
    cols.insert(i, key.clone());
    proof {
        let nc = cols@;
        assert forall|a: int, b: int| 0 <= a < b < nc.len() implies lex_lt(nc[a]@, nc[b]@) by {
            if b < i {
                assert(nc[a]@ == old_cols[a]@ && nc[b]@ == old_cols[b]@);
            } else if b == i {
                assert(nc[b]@ == key@ && nc[a]@ == old_cols[a]@);
            } else {
                assert(nc[b]@ == old_cols[b - 1]@);
                if a < i {
                    assert(lex_lt(old_cols[a]@, key@));
                    if b - 1 == i as int {
                        assert(lex_lt(key@, old_cols[b - 1]@));
                        lemma_lex_transitive(old_cols[a]@, key@, old_cols[b - 1]@);
                    } else {
                        assert(lex_lt(old_cols[a]@, old_cols[b - 1]@));
                    }
                } else if a == i {
                    assert(nc[a]@ == key@);
                    assert(lex_lt(key@, old_cols[i as int]@));
                    if b - 1 > i as int {
                        assert(lex_lt(old_cols[i as int]@, old_cols[b - 1]@));
                        lemma_lex_transitive(key@, old_cols[i as int]@, old_cols[b - 1]@);
                    }
                } else {
                    assert(nc[a]@ == old_cols[a - 1]@);
                    assert(lex_lt(old_cols[a - 1]@, old_cols[b - 1]@));
                }
            }
        }
        assert forall|k: Seq<char>| #[trigger]
            str_in(cols@, k) <==> (str_in(old_cols, k) || k == key@) by {
            if str_in(cols@, k) {
                let j = choose|j: int| 0 <= j < cols@.len() && cols@[j]@ == k;
                if j < i {
                    assert(old_cols[j]@ == k);
                } else if j == i {
                } else {
                    assert(old_cols[j - 1]@ == k);
                }
            }
            if str_in(old_cols, k) {
                let j = choose|j: int| 0 <= j < old_cols.len() && old_cols[j]@ == k;
                if j < i {
                    assert(cols@[j]@ == k);
                } else {
                    assert(cols@[j + 1]@ == k);
                }
            }
            if k == key@ {
                assert(cols@[i as int]@ == k);
            }
        }
    }
}

/// One object element's keys fold into the union one at a time.
proof fn lemma_has_key_step(ms: Seq<(String, Value)>, w: int, k: Seq<char>)
    requires
        0 <= w < ms.len(),
    ensures
        has_key(ms.take(w + 1), k) <==> (has_key(ms.take(w), k) || ms[w].0@ == k),
{
    if has_key(ms.take(w + 1), k) {
        let j = choose|j: int| 0 <= j < ms.take(w + 1).len() && (#[trigger] ms.take(w + 1)[j]).0@ == k;
        if j < w {
            assert(ms.take(w)[j].0@ == k);
        }
    }
    if has_key(ms.take(w), k) {
        let j = choose|j: int| 0 <= j < ms.take(w).len() && (#[trigger] ms.take(w)[j]).0@ == k;
        assert(ms.take(w + 1)[j].0@ == k);
    }
    if ms[w].0@ == k {
        assert(ms.take(w + 1)[w].0@ == k);
    }
}

/// One array element's key set folds into the union one element at a time.
proof fn lemma_col_key_step(arr: Seq<Value>, i: int, k: Seq<char>)
    requires
        0 <= i < arr.len(),
    ensures
        is_col_key(arr.take(i + 1), k) <==> (is_col_key(arr.take(i), k) || (arr[i] matches
            Value::Obj(ms) && has_key(ms@, k))),
{
    if is_col_key(arr.take(i + 1), k) {
        let j = choose|j: int|
            0 <= j < arr.take(i + 1).len() && ((#[trigger] arr.take(i + 1)[j]) matches
            Value::Obj(ms) && has_key(ms@, k));
        if j < i {
            assert(arr.take(i)[j] == arr[j]);
            assert(is_col_key(arr.take(i), k));
        }
    }
    if is_col_key(arr.take(i), k) {
        let j = choose|j: int|
            0 <= j < arr.take(i).len() && ((#[trigger] arr.take(i)[j]) matches Value::Obj(ms)
                && has_key(ms@, k));
        assert(arr.take(i + 1)[j] == arr[j]);
        assert(is_col_key(arr.take(i + 1), k));
    }
    if arr[i] matches Value::Obj(ms) && has_key(ms@, k) {
        assert(arr.take(i + 1)[i] == arr[i]);
        assert(is_col_key(arr.take(i + 1), k));
    }
}

/// Infers the column list of an array: the union of the keys of its object
/// elements, in ascending lexicographic order, each key once.
pub fn infer_columns(items: &Vec<&Value>) -> (cols: Vec<String>)
    ensures
        columns_of(derefs(items@), cols@),
{
    let ghost arr = derefs(items@);
    let mut cols: Vec<String> = Vec::new();
    let n = items.len();
    let mut i: usize = 0;
    proof {
        assert(arr.take(0) =~= Seq::<Value>::empty());
    }
    while i < n
        invariant
            i <= n,
            n == items@.len(),
            arr == derefs(items@),
            strictly_sorted(cols@),
            forall|k: Seq<char>| #[trigger] str_in(cols@, k) <==> is_col_key(arr.take(i as int), k),
        decreases n - i,
    {
        match items[i] {
            Value::Obj(ms) => {
                let m = ms.len();
                let mut w: usize = 0;
                proof {
                    assert(ms@.take(0) =~= Seq::<(String, Value)>::empty());
                }
                while w < m
                    invariant
                        w <= m,
                        m == ms@.len(),
                        i < n,
                        n == items@.len(),
                        arr == derefs(items@),
                        arr[i as int] == Value::Obj(*ms),
                        strictly_sorted(cols@),
                        forall|k: Seq<char>| #[trigger]
                            str_in(cols@, k) <==> (is_col_key(arr.take(i as int), k) || has_key(
                                ms@.take(w as int),
                                k,
                            )),
                    decreases m - w,
                {
                    insert_sorted_unique(&mut cols, &ms[w].0);
                    proof {
                        assert forall|k: Seq<char>| #[trigger]
                            str_in(cols@, k) <==> (is_col_key(arr.take(i as int), k) || has_key(
                                ms@.take(w + 1),
                                k,
                            )) by {
                            lemma_has_key_step(ms@, w as int, k);
                        }
                    }
                    w = w + 1;
                }
                proof {
                    assert(ms@.take(m as int) =~= ms@);
                    assert forall|k: Seq<char>| #[trigger]
                        str_in(cols@, k) <==> is_col_key(arr.take(i + 1), k) by {
                        lemma_col_key_step(arr, i as int, k);
                    }
                }
            },
            _ => {
                proof {
                    assert forall|k: Seq<char>| #[trigger]
                        str_in(cols@, k) <==> is_col_key(arr.take(i + 1), k) by {
                        lemma_col_key_step(arr, i as int, k);
                    }
                }
            },
        }
        i = i + 1;
    }
    proof {
        assert(arr.take(n as int) =~= arr);
    }
    cols
}

/// Formats a value in the chosen output format. The three tabular formats
/// share column inference and the cell rule set; JSON bypasses them and
/// pretty-prints the value itself.
pub fn format_output(data: &Value, format: crate::types::OutputFormat) -> (r: String)
    ensures
        format == crate::types::OutputFormat::Table ==> table::table_output(*data, r@),
        format == crate::types::OutputFormat::Json ==> r@ == crate::jsontext::pretty_json(
            *data,
            Seq::<char>::empty(),
        ),
        format == crate::types::OutputFormat::Csv ==> csv_formatter::csv_output(*data, r@),
        format == crate::types::OutputFormat::Markdown ==> markdown::md_output(*data, r@),
{
    match format {
        crate::types::OutputFormat::Table => table::TableFormatter::format(data),
        crate::types::OutputFormat::Json => json::JsonFormatter::format(data),
        crate::types::OutputFormat::Csv => csv_formatter::CsvFormatter::format(data),
        crate::types::OutputFormat::Markdown => markdown::MarkdownFormatter::format(data),
    }
}

/// An array or object cell whose compact JSON runs over 50 characters is
/// cut to its first 50 characters plus an ellipsis in the table format,
/// while the CSV and Markdown cell rule set keeps the full serialization.
pub proof fn lemma_table_truncates_long_cells(v: Value)
    requires
        v is Arr || v is Obj,
        compact_json(v).len() > 50,
    ensures
        table::table_cell_text(v) == compact_json(v).take(50) + "..."@,
        cell_text(v) == compact_json(v),
{
}

/// Column inference depends on the key set alone: two arrays whose object
/// elements carry the same keys — in whatever order, spread over whatever
/// records — get the same column list.
pub proof fn lemma_columns_ignore_field_order(
    a: Seq<Value>,
    b: Seq<Value>,
    ca: Seq<String>,
    cb: Seq<String>,
)
    requires
        columns_of(a, ca),
        columns_of(b, cb),
        forall|k: Seq<char>| #[trigger] is_col_key(a, k) <==> is_col_key(b, k),
    ensures
        ca.len() == cb.len(),
        forall|i: int| 0 <= i < ca.len() ==> ca[i]@ == cb[i]@,
{
    assert forall|k: Seq<char>| #[trigger] str_in(ca, k) <==> str_in(cb, k) by {
        assert(str_in(ca, k) <==> is_col_key(a, k));
        assert(str_in(cb, k) <==> is_col_key(b, k));
    }
    lemma_sorted_keys_unique(ca, cb);
}

} // verus!
