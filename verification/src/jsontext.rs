//! Verified JSON text output for [`Value`]: compact serialization (used for
//! array and object cells in the tabular formats) and pretty-printed
//! serialization with two-space indentation (the JSON output format).

use vstd::prelude::*;

use crate::strutil::push_char;
use crate::value::Value;

verus! {

/// A lowercase hexadecimal digit.
pub open spec fn hex_digit(d: int) -> char {
    if d == 0 {
        '0'
    } else if d == 1 {
        '1'
    } else if d == 2 {
        '2'
    } else if d == 3 {
        '3'
    } else if d == 4 {
        '4'
    } else if d == 5 {
        '5'
    } else if d == 6 {
        '6'
    } else if d == 7 {
        '7'
    } else if d == 8 {
        '8'
    } else if d == 9 {
        '9'
    } else if d == 10 {
        'a'
    } else if d == 11 {
        'b'
    } else if d == 12 {
        'c'
    } else if d == 13 {
        'd'
    } else if d == 14 {
        'e'
    } else {
        'f'
    }
}

/// How one character appears inside a JSON string literal: quote and
/// backslash get a backslash escape, control characters get their short
/// escape or a `\u00XX` escape, everything else stands for itself.
pub open spec fn esc_char(c: char) -> Seq<char> {
    if c == '"' {
        "\\\""@
    } else if c == '\\' {
        "\\\\"@
    } else if c == '\u{8}' {
        "\\b"@
    } else if c == '\t' {
        "\\t"@
    } else if c == '\n' {
        "\\n"@
    } else if c == '\u{c}' {
        "\\f"@
    } else if c == '\r' {
        "\\r"@
    } else if (c as u32) < 32 {
        "\\u00"@ + seq![hex_digit(((c as u32) / 16) as int), hex_digit(((c as u32) % 16) as int)]
    } else {
        seq![c]
    }
}

/// A character sequence with every character JSON-escaped.
pub open spec fn json_escaped(s: Seq<char>) -> Seq<char>
    decreases s.len(),
{
    if s.len() == 0 {
        Seq::empty()
    } else {
        json_escaped(s.drop_last()) + esc_char(s.last())
    }
}

/// A JSON string literal: the escaped text between double quotes.
pub open spec fn quoted(s: Seq<char>) -> Seq<char> {
    "\""@ + json_escaped(s) + "\""@
}

/// Compact (single-line, separator-free) JSON text of a value.
pub open spec fn compact_json(v: Value) -> Seq<char>
    decreases v, 1int,
{
    match v {
        Value::Null => "null"@,
        Value::Bool(b) => if b {
            "true"@
        } else {
            "false"@
        },
        Value::Num(s) => s@,
        Value::Str(s) => quoted(s@),
        Value::Arr(vs) => "["@ + compact_elems(vs@) + "]"@,
        Value::Obj(ms) => "{"@ + compact_members(ms@) + "}"@,
    }
}

/// Compact JSON texts of array elements, joined by commas.
pub open spec fn compact_elems(vs: Seq<Value>) -> Seq<char>
    decreases vs, 0int,
{
    if vs.len() == 0 {
        Seq::empty()
    } else if vs.len() == 1 {
        compact_json(vs[0])
    } else {
        compact_elems(vs.drop_last()) + ","@ + compact_json(vs.last())
    }
}

/// Compact JSON texts of object members, joined by commas.
pub open spec fn compact_members(ms: Seq<(String, Value)>) -> Seq<char>
    decreases ms, 0int,
{
    if ms.len() == 0 {
        Seq::empty()
    } else if ms.len() == 1 {
        quoted(ms[0].0@) + ":"@ + compact_json(ms[0].1)
    } else {
        compact_members(ms.drop_last()) + ","@ + quoted(ms.last().0@) + ":"@ + compact_json(
            ms.last().1,
        )
    }
}

fn hex_char(d: u32) -> (c: char)
    requires
        d < 16,
    ensures
        c == hex_digit(d as int),
{
    if d == 0 {
        '0'
    } else if d == 1 {
        '1'
    } else if d == 2 {
        '2'
    } else if d == 3 {
        '3'
    } else if d == 4 {
        '4'
    } else if d == 5 {
        '5'
    } else if d == 6 {
        '6'
    } else if d == 7 {
        '7'
    } else if d == 8 {
        '8'
    } else if d == 9 {
        '9'
    } else if d == 10 {
        'a'
    } else if d == 11 {
        'b'
    } else if d == 12 {
        'c'
    } else if d == 13 {
        'd'
    } else if d == 14 {
        'e'
    } else {
        'f'
    }
}

/// Appends the escape of one character.
fn write_esc_char(c: char, out: &mut String)
    ensures
        final(out)@ == old(out)@ + esc_char(c),
{
    if c == '"' {
        out.append("\\\"");
    } else if c == '\\' {
        out.append("\\\\");
    } else if c == '\u{8}' {
        out.append("\\b");
    } else if c == '\t' {
        out.append("\\t");
    } else if c == '\n' {
        out.append("\\n");
    } else if c == '\u{c}' {
        out.append("\\f");
    } else if c == '\r' {
        out.append("\\r");
    } else if (c as u32) < 32 {
        let code = c as u32;
        out.append("\\u00");
        push_char(out, hex_char(code / 16));
        push_char(out, hex_char(code % 16));
        proof {
            assert(out@ =~= old(out)@ + esc_char(c));
        }
    } else {
        push_char(out, c);
        proof {
            assert(out@ =~= old(out)@ + esc_char(c));
        }
    }
}

/// Appends the JSON-escaped text of a string.
fn write_escaped(s: &str, out: &mut String)
    ensures
        final(out)@ == old(out)@ + json_escaped(s@),
{
    let n = s.unicode_len();
    let mut i: usize = 0;
    proof {
        assert(s@.take(0) =~= Seq::<char>::empty());
    }
    while i < n
        invariant
            i <= n,
            n == s@.len(),
            out@ == old(out)@ + json_escaped(s@.take(i as int)),
        decreases n - i,
    {
        let c = s.get_char(i);
        write_esc_char(c, out);
        proof {
            assert(s@.take(i + 1).drop_last() =~= s@.take(i as int));
            assert(s@.take(i + 1).last() == s@[i as int]);
        }
        i = i + 1;
    }
    proof {
        assert(s@.take(n as int) =~= s@);
    }
}

/// Appends the quoted, escaped JSON string literal for `s`.
fn write_quoted(s: &str, out: &mut String)
    ensures
        final(out)@ == old(out)@ + quoted(s@),
{
    out.append("\"");
    write_escaped(s, out);
    out.append("\"");
}

/// Appends the compact JSON text of a value.
#[verifier::loop_isolation(false)]
pub fn write_compact(v: &Value, out: &mut String)
    ensures
        final(out)@ == old(out)@ + compact_json(*v),
    decreases *v,
{
    match v {
        Value::Null => {
            out.append("null");
        },
        Value::Bool(b) => {
            if *b {
                out.append("true");
            } else {
                out.append("false");
            }
        },
        Value::Num(s) => {
            out.append(s.as_str());
        },
        Value::Str(s) => {
            write_quoted(s.as_str(), out);
        },
        Value::Arr(vs) => {
            out.append("[");
            let n = vs.len();
            let mut i: usize = 0;
            while i < n
                invariant
                    i <= n,
                    out@ == old(out)@ + "["@ + compact_elems(vs@.take(i as int)),
                decreases n - i,
            {
                if i > 0 {
                    out.append(",");
                }
                proof {
                    assert(decreases_to!(*v => *vs));
                    assert(decreases_to!(*vs => vs@));
                    assert(decreases_to!(vs@ => vs@[i as int]));
                }
                write_compact(&vs[i], out);
                proof {
                    assert(vs@.take(i + 1).drop_last() =~= vs@.take(i as int));
                    assert(vs@.take(i + 1).last() == vs@[i as int]);
                    if i == 0 {
                        assert(compact_elems(vs@.take(1)) == compact_json(vs@[0]));
                    }
                    assert(out@ =~= old(out)@ + "["@ + compact_elems(vs@.take(i + 1)));
                }
                i = i + 1;
            }
            out.append("]");
            proof {
                assert(vs@.take(n as int) =~= vs@);
                assert(out@ =~= old(out)@ + compact_json(*v));
            }
        },
        Value::Obj(ms) => {
            out.append("{");
            let n = ms.len();
            let mut i: usize = 0;
            while i < n
                invariant
                    i <= n,
                    out@ == old(out)@ + "{"@ + compact_members(ms@.take(i as int)),
                decreases n - i,
            {
                if i > 0 {
                    out.append(",");
                }
                write_quoted(ms[i].0.as_str(), out);
                out.append(":");
                proof {
                    assert(decreases_to!(*v => *ms));
                    assert(decreases_to!(*ms => ms@));
                    assert(decreases_to!(ms@ => ms@[i as int]));
                    assert(decreases_to!(ms@[i as int] => ms@[i as int].1));
                }
                write_compact(&ms[i].1, out);
                proof {
                    assert(ms@.take(i + 1).drop_last() =~= ms@.take(i as int));
                    assert(ms@.take(i + 1).last() == ms@[i as int]);
                    assert(out@ =~= old(out)@ + "{"@ + compact_members(ms@.take(i + 1)));
                }
                i = i + 1;
            }
            out.append("}");
            proof {
                assert(ms@.take(n as int) =~= ms@);
                assert(out@ =~= old(out)@ + compact_json(*v));
            }
        },
    }
}

/// The compact JSON text of a value, as a fresh string.
pub fn to_compact_string(v: &Value) -> (r: String)
    ensures
        r@ == compact_json(*v),
{
    let mut out = String::new();
    write_compact(v, &mut out);
    out
}

/// Pretty JSON text of a value. `ind` is the indentation of the lines that
/// close this value; nested lines use two more spaces.
pub open spec fn pretty_json(v: Value, ind: Seq<char>) -> Seq<char>
    decreases v, 1int,
{
    match v {
        Value::Null => "null"@,
        Value::Bool(b) => if b {
            "true"@
        } else {
            "false"@
        },
        Value::Num(s) => s@,
        Value::Str(s) => quoted(s@),
        Value::Arr(vs) => if vs@.len() == 0 {
            "[]"@
        } else {
            "["@ + pretty_elems(vs@, ind + "  "@) + "\n"@ + ind + "]"@
        },
        Value::Obj(ms) => if ms@.len() == 0 {
            "{}"@
        } else {
            "{"@ + pretty_members(ms@, ind + "  "@) + "\n"@ + ind + "}"@
        },
    }
}

/// Pretty texts of array elements: each on its own line at indentation
/// `ind`, lines separated by commas.
pub open spec fn pretty_elems(vs: Seq<Value>, ind: Seq<char>) -> Seq<char>
    decreases vs, 0int,
{
    if vs.len() == 0 {
        Seq::empty()
    } else if vs.len() == 1 {
        "\n"@ + ind + pretty_json(vs[0], ind)
    } else {
        pretty_elems(vs.drop_last(), ind) + ",\n"@ + ind + pretty_json(vs.last(), ind)
    }
}

/// Pretty texts of object members: each `"key": value` on its own line at
/// indentation `ind`, lines separated by commas.
pub open spec fn pretty_members(ms: Seq<(String, Value)>, ind: Seq<char>) -> Seq<char>
    decreases ms, 0int,
{
    if ms.len() == 0 {
        Seq::empty()
    } else if ms.len() == 1 {
        "\n"@ + ind + quoted(ms[0].0@) + ": "@ + pretty_json(ms[0].1, ind)
    } else {
        pretty_members(ms.drop_last(), ind) + ",\n"@ + ind + quoted(ms.last().0@) + ": "@
            + pretty_json(ms.last().1, ind)
    }
}

/// Appends the pretty JSON text of a value, with `ind` the indentation of
/// this value's closing line.
#[verifier::loop_isolation(false)]
pub fn write_pretty(v: &Value, ind: &str, out: &mut String)
    ensures
        final(out)@ == old(out)@ + pretty_json(*v, ind@),
    decreases *v, 1int,
{
    match v {
        Value::Null => {
            out.append("null");
        },
        Value::Bool(b) => {
            if *b {
                out.append("true");
            } else {
                out.append("false");
            }
        },
        Value::Num(s) => {
            out.append(s.as_str());
        },
        Value::Str(s) => {
            write_quoted(s.as_str(), out);
        },
        Value::Arr(vs) => {
            proof {
                assert(decreases_to!(*v => *vs));
            }
            write_pretty_arr(vs, ind, out);
        },
        Value::Obj(ms) => {
            proof {
                assert(decreases_to!(*v => *ms));
            }
            write_pretty_obj(ms, ind, out);
        },
    }
}

/// Appends the pretty JSON text of an array.
#[verifier::loop_isolation(false)]
fn write_pretty_arr(vs: &Vec<Value>, ind: &str, out: &mut String)
    ensures
        final(out)@ == old(out)@ + pretty_json(Value::Arr(*vs), ind@),
    decreases *vs, 0int,
{
    let n = vs.len();
    if n == 0 {
        out.append("[]");
        return ;
    }
    let mut inner = String::from_str(ind);
    inner.append("  ");
    out.append("[");
    let mut i: usize = 0;
    while i < n
        invariant
            i <= n,
            inner@ == ind@ + "  "@,
            out@ == old(out)@ + "["@ + pretty_elems(vs@.take(i as int), inner@),
        decreases n - i,
    {
        if i > 0 {
            out.append(",\n");
        } else {
            out.append("\n");
        }
        out.append(inner.as_str());
        proof {
            assert(decreases_to!(*vs => vs@));
            assert(decreases_to!(vs@ => vs@[i as int]));
        }
        write_pretty(&vs[i], inner.as_str(), out);
        proof {
            assert(vs@.take(i + 1).drop_last() =~= vs@.take(i as int));
            assert(vs@.take(i + 1).last() == vs@[i as int]);
            assert(out@ =~= old(out)@ + "["@ + pretty_elems(vs@.take(i + 1), inner@));
        }
        i = i + 1;
    }
    out.append("\n");
    out.append(ind);
    out.append("]");
    proof {
        assert(vs@.take(n as int) =~= vs@);
        assert(out@ =~= old(out)@ + pretty_json(Value::Arr(*vs), ind@));
    }
}

/// Appends the pretty JSON text of an object.
#[verifier::loop_isolation(false)]
fn write_pretty_obj(ms: &Vec<(String, Value)>, ind: &str, out: &mut String)
    ensures
        final(out)@ == old(out)@ + pretty_json(Value::Obj(*ms), ind@),
    decreases *ms, 0int,
{
    let n = ms.len();
    if n == 0 {
        out.append("{}");
        return ;
    }
    let mut inner = String::from_str(ind);
    inner.append("  ");
    out.append("{");
    let mut i: usize = 0;
    while i < n
        invariant
            i <= n,
            inner@ == ind@ + "  "@,
            out@ == old(out)@ + "{"@ + pretty_members(ms@.take(i as int), inner@),
        decreases n - i,
    {
        if i > 0 {
            out.append(",\n");
        } else {
            out.append("\n");
        }
        out.append(inner.as_str());
        write_quoted(ms[i].0.as_str(), out);
        out.append(": ");
        proof {
            assert(decreases_to!(*ms => ms@));
            assert(decreases_to!(ms@ => ms@[i as int]));
            assert(decreases_to!(ms@[i as int] => ms@[i as int].1));
        }
        write_pretty(&ms[i].1, inner.as_str(), out);
        proof {
            assert(ms@.take(i + 1).drop_last() =~= ms@.take(i as int));
            assert(ms@.take(i + 1).last() == ms@[i as int]);
            assert(out@ =~= old(out)@ + "{"@ + pretty_members(ms@.take(i + 1), inner@));
        }
        i = i + 1;
    }
    out.append("\n");
    out.append(ind);
    out.append("}");
    proof {
        assert(ms@.take(n as int) =~= ms@);
        assert(out@ =~= old(out)@ + pretty_json(Value::Obj(*ms), ind@));
    }
}

/// The pretty JSON text of a value, as a fresh string.
pub fn to_pretty_string(v: &Value) -> (r: String)
    ensures
        r@ == pretty_json(*v, Seq::<char>::empty()),
{
    let mut out = String::new();
    proof {
        reveal_strlit("");
        assert(""@ =~= Seq::<char>::empty());
    }
    write_pretty(v, "", &mut out);
    out
}

} // verus!
