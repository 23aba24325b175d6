//! Construction of requests: endpoint paths, the query parameters of every
//! list operation (wire page size and page first, then the caller's filters
//! in caller order, multi-valued filters one occurrence per value), and the
//! JSON bodies of the create and update operations.

use vstd::prelude::*;

use crate::config::opt_str_view;
use crate::strutil::dec_str;
use crate::strutil::int_str;
use crate::strutil::i32_to_string;
use crate::strutil::u64_to_string;
use crate::types::ChatMessage;
use crate::value::Value;

verus! {

/// The views of a parameter list's name/value pairs.
pub open spec fn param_views(ps: Seq<(String, String)>) -> Seq<(Seq<char>, Seq<char>)> {
    ps.map_values(|p: (String, String)| (p.0@, p.1@))
}

/// Zero or one occurrence of a parameter, as the option dictates.
pub open spec fn opt_param(key: Seq<char>, v: Option<Seq<char>>) -> Seq<(Seq<char>, Seq<char>)> {
    match v {
        Some(s) => seq![(key, s)],
        None => Seq::empty(),
    }
}

/// One occurrence of the parameter per value, in order.
pub open spec fn multi_param(key: Seq<char>, vs: Seq<Seq<char>>) -> Seq<(Seq<char>, Seq<char>)> {
    Seq::new(vs.len(), |i: int| (key, vs[i]))
}

/// The views of a list of strings.
pub open spec fn strs_view(ss: Seq<String>) -> Seq<Seq<char>> {
    ss.map_values(|s: String| s@)
}

/// The views of an optional list of strings, empty when absent.
pub open spec fn opt_strs_view(ss: Option<&Vec<String>>) -> Seq<Seq<char>> {
    match ss {
        Some(v) => strs_view(v@),
        None => Seq::empty(),
    }
}

fn push_param(ps: &mut Vec<(String, String)>, key: &str, val: &str)
    ensures
        param_views(final(ps)@) == param_views(old(ps)@) + seq![(key@, val@)],
{
    ps.push((String::from_str(key), String::from_str(val)));
    proof {
        assert(param_views(ps@) =~= param_views(old(ps)@) + seq![(key@, val@)]);
    }
}

fn push_opt_param(ps: &mut Vec<(String, String)>, key: &str, val: Option<&str>)
    ensures
        param_views(final(ps)@) == param_views(old(ps)@) + opt_param(key@, opt_str_view(val)),
{
    match val {
        Some(v) => {
            push_param(ps, key, v);
        },
        None => {
            proof {
                assert(param_views(ps@) =~= param_views(ps@) + opt_param(
                    key@,
                    opt_str_view(val),
                ));
            }
        },
    }
}

fn push_multi_param(ps: &mut Vec<(String, String)>, key: &str, vals: Option<&Vec<String>>)
    ensures
        param_views(final(ps)@) == param_views(old(ps)@) + multi_param(key@, opt_strs_view(vals)),
{
    match vals {
        Some(vs) => {
            let n = vs.len();
            let mut i: usize = 0;
            proof {
                assert(param_views(ps@) =~= param_views(old(ps)@) + multi_param(
                    key@,
                    strs_view(vs@).take(0),
                ));
            }
            while i < n
                invariant
                    i <= n,
                    n == vs@.len(),
                    param_views(ps@) == param_views(old(ps)@) + multi_param(
                        key@,
                        strs_view(vs@).take(i as int),
                    ),
                decreases n - i,
            {
                push_param(ps, key, vs[i].as_str());
                proof {
                    assert(param_views(ps@) =~= param_views(old(ps)@) + multi_param(
                        key@,
                        strs_view(vs@).take(i + 1),
                    ));
                }
                i = i + 1;
            }
            proof {
                assert(strs_view(vs@).take(n as int) =~= strs_view(vs@));
                assert(multi_param(key@, strs_view(vs@).take(n as int)) =~= multi_param(
                    key@,
                    strs_view(vs@),
                ));
            }
        },
        None => {
            proof {
                assert(param_views(ps@) =~= param_views(ps@) + multi_param(
                    key@,
                    opt_strs_view(vals),
                ));
            }
        },
    }
}

/// The query parameters of one page request: the capped page size, the
/// page number, then the caller's filters unchanged.
pub fn list_params(page_size: u32, page: u32, filters: Vec<(String, String)>) -> (r: Vec<
    (String, String),
>)
    ensures
        param_views(r@) == seq![("limit"@, dec_str(page_size as int)), ("page"@, dec_str(
            page as int,
        ))] + param_views(filters@),
{
    let mut ps: Vec<(String, String)> = Vec::new();
    let page_size_text = u64_to_string(page_size as u64);
    let page_text = u64_to_string(page as u64);
    push_param(&mut ps, "limit", page_size_text.as_str());
    push_param(&mut ps, "page", page_text.as_str());
    let mut filters = filters;
    let ghost filters_snapshot = filters@;
    let ghost before = param_views(ps@);
    ps.append(&mut filters);
    proof {
        assert(param_views(ps@) =~= before + param_views(filters_snapshot));
        assert(param_views(ps@) =~= seq![("limit"@, dec_str(page_size as int)), ("page"@, dec_str(
            page as int,
        ))] + param_views(filters_snapshot));
    }
    ps
}

/// The filters of a traces list request, in caller order; each tag is one
/// more `tags` occurrence.
pub fn traces_filters(
    name: Option<&str>,
    user_id: Option<&str>,
    session_id: Option<&str>,
    tags: Option<&Vec<String>>,
    from_timestamp: Option<&str>,
    to_timestamp: Option<&str>,
) -> (r: Vec<(String, String)>)
    ensures
        param_views(r@) == opt_param("name"@, opt_str_view(name)) + opt_param(
            "userId"@,
            opt_str_view(user_id),
        ) + opt_param("sessionId"@, opt_str_view(session_id)) + opt_param(
            "fromTimestamp"@,
            opt_str_view(from_timestamp),
        ) + opt_param("toTimestamp"@, opt_str_view(to_timestamp)) + multi_param(
            "tags"@,
            opt_strs_view(tags),
        ),
{
    let mut ps: Vec<(String, String)> = Vec::new();
    push_opt_param(&mut ps, "name", name);
    push_opt_param(&mut ps, "userId", user_id);
    push_opt_param(&mut ps, "sessionId", session_id);
    push_opt_param(&mut ps, "fromTimestamp", from_timestamp);
    push_opt_param(&mut ps, "toTimestamp", to_timestamp);
    push_multi_param(&mut ps, "tags", tags);
    ps
}

/// The filters of a sessions list request.
pub fn sessions_filters(from_timestamp: Option<&str>, to_timestamp: Option<&str>) -> (r: Vec<
    (String, String),
>)
    ensures
        param_views(r@) == opt_param("fromTimestamp"@, opt_str_view(from_timestamp)) + opt_param(
            "toTimestamp"@,
            opt_str_view(to_timestamp),
        ),
{
    let mut ps: Vec<(String, String)> = Vec::new();
    push_opt_param(&mut ps, "fromTimestamp", from_timestamp);
    push_opt_param(&mut ps, "toTimestamp", to_timestamp);
    ps
}

/// The filters of an observations list request, in caller order.
pub fn observations_filters(
    trace_id: Option<&str>,
    name: Option<&str>,
    observation_type: Option<&str>,
    user_id: Option<&str>,
    from_start_time: Option<&str>,
    to_start_time: Option<&str>,
) -> (r: Vec<(String, String)>)
    ensures
        param_views(r@) == opt_param("traceId"@, opt_str_view(trace_id)) + opt_param(
            "name"@,
            opt_str_view(name),
        ) + opt_param("type"@, opt_str_view(observation_type)) + opt_param(
            "userId"@,
            opt_str_view(user_id),
        ) + opt_param("fromStartTime"@, opt_str_view(from_start_time)) + opt_param(
            "toStartTime"@,
            opt_str_view(to_start_time),
        ),
{
    let mut ps: Vec<(String, String)> = Vec::new();
    push_opt_param(&mut ps, "traceId", trace_id);
    push_opt_param(&mut ps, "name", name);
    push_opt_param(&mut ps, "type", observation_type);
    push_opt_param(&mut ps, "userId", user_id);
    push_opt_param(&mut ps, "fromStartTime", from_start_time);
    push_opt_param(&mut ps, "toStartTime", to_start_time);
    ps
}

/// The filters of a scores list request.
pub fn scores_filters(
    name: Option<&str>,
    from_timestamp: Option<&str>,
    to_timestamp: Option<&str>,
) -> (r: Vec<(String, String)>)
    ensures
        param_views(r@) == opt_param("name"@, opt_str_view(name)) + opt_param(
            "fromTimestamp"@,
            opt_str_view(from_timestamp),
        ) + opt_param("toTimestamp"@, opt_str_view(to_timestamp)),
{
    let mut ps: Vec<(String, String)> = Vec::new();
    push_opt_param(&mut ps, "name", name);
    push_opt_param(&mut ps, "fromTimestamp", from_timestamp);
    push_opt_param(&mut ps, "toTimestamp", to_timestamp);
    ps
}

/// The filters of a prompts list request.
pub fn prompts_filters(name: Option<&str>, label: Option<&str>, tag: Option<&str>) -> (r: Vec<
    (String, String),
>)
    ensures
        param_views(r@) == opt_param("name"@, opt_str_view(name)) + opt_param(
            "label"@,
            opt_str_view(label),
        ) + opt_param("tag"@, opt_str_view(tag)),
{
    let mut ps: Vec<(String, String)> = Vec::new();
    push_opt_param(&mut ps, "name", name);
    push_opt_param(&mut ps, "label", label);
    push_opt_param(&mut ps, "tag", tag);
    ps
}

/// The filters of a dataset items list request.
pub fn dataset_items_filters(dataset_name: Option<&str>) -> (r: Vec<(String, String)>)
    ensures
        param_views(r@) == opt_param("datasetName"@, opt_str_view(dataset_name)),
{
    let mut ps: Vec<(String, String)> = Vec::new();
    push_opt_param(&mut ps, "datasetName", dataset_name);
    ps
}

/// The parameters that select a prompt version or label.
pub fn prompt_selector_params(version: Option<i32>, label: Option<&str>) -> (r: Vec<
    (String, String),
>)
    ensures
        param_views(r@) == (match version {
            Some(v) => seq![("version"@, int_str(v as int))],
            None => Seq::<(Seq<char>, Seq<char>)>::empty(),
        }) + opt_param("label"@, opt_str_view(label)),
{
    let mut ps: Vec<(String, String)> = Vec::new();
    match version {
        Some(v) => {
            let text = i32_to_string(v);
            push_param(&mut ps, "version", text.as_str());
        },
        None => {
            proof {
                assert(param_views(ps@) =~= Seq::<(Seq<char>, Seq<char>)>::empty());
            }
        },
    }
    push_opt_param(&mut ps, "label", label);
    ps
}

fn joined2(prefix: &str, rest: &str) -> (r: String)
    ensures
        r@ == prefix@ + rest@,
{
    let mut out = String::from_str(prefix);
    out.append(rest);
    out
}

/// The path of one trace.
pub fn trace_path(id: &str) -> (r: String)
    ensures
        r@ == "/traces/"@ + id@,
{
    joined2("/traces/", id)
}

/// The path of one session.
pub fn session_path(id: &str) -> (r: String)
    ensures
        r@ == "/sessions/"@ + id@,
{
    joined2("/sessions/", id)
}

/// The path of one observation.
pub fn observation_path(id: &str) -> (r: String)
    ensures
        r@ == "/observations/"@ + id@,
{
    joined2("/observations/", id)
}

/// The path of one score.
pub fn score_path(id: &str) -> (r: String)
    ensures
        r@ == "/scores/"@ + id@,
{
    joined2("/scores/", id)
}

/// The path of one prompt.
pub fn prompt_path(name: &str) -> (r: String)
    ensures
        r@ == "/prompts/"@ + name@,
{
    joined2("/prompts/", name)
}

/// The path of one prompt version.
pub fn prompt_version_path(name: &str, version: i32) -> (r: String)
    ensures
        r@ == "/prompts/"@ + name@ + "/versions/"@ + int_str(version as int),
{
    let mut out = String::from_str("/prompts/");
    out.append(name);
    out.append("/versions/");
    let text = i32_to_string(version);
    out.append(text.as_str());
    out
}

/// The path of one dataset.
pub fn dataset_path(name: &str) -> (r: String)
    ensures
        r@ == "/datasets/"@ + name@,
{
    joined2("/datasets/", name)
}

/// The path of one dataset item.
pub fn dataset_item_path(id: &str) -> (r: String)
    ensures
        r@ == "/dataset-items/"@ + id@,
{
    joined2("/dataset-items/", id)
}

/// The path of a dataset's runs.
pub fn dataset_runs_path(name: &str) -> (r: String)
    ensures
        r@ == "/datasets/"@ + name@ + "/runs"@,
{
    let mut out = String::from_str("/datasets/");
    out.append(name);
    out.append("/runs");
    out
}

/// The path of one dataset run.
pub fn dataset_run_path(name: &str, run_name: &str) -> (r: String)
    ensures
        r@ == "/datasets/"@ + name@ + "/runs/"@ + run_name@,
{
    let mut out = String::from_str("/datasets/");
    out.append(name);
    out.append("/runs/");
    out.append(run_name);
    out
}

/// The spec-level shape of one body field's value.
#[verifier::ext_equal]
pub enum FieldSpec {
    /// A JSON string with this text.
    SStr(Seq<char>),
    /// A JSON number with this canonical text.
    SNum(Seq<char>),
    /// A JSON array of strings with these texts.
    SArrStr(Seq<Seq<char>>),
    /// A JSON array of `{role, content}` chat messages.
    SChat(Seq<(Seq<char>, Seq<char>)>),
    /// A JSON array of `{field}` dimension selectors.
    SDims(Seq<Seq<char>>),
    /// This very value, passed through.
    SVal(Value),
}

/// Whether one object member has the given key and shape.
pub open spec fn field_matches(m: (String, Value), f: (Seq<char>, FieldSpec)) -> bool {
    m.0@ == f.0 && match f.1 {
        FieldSpec::SStr(s) => m.1 matches Value::Str(x) && x@ == s,
        FieldSpec::SNum(s) => m.1 matches Value::Num(x) && x@ == s,
        FieldSpec::SArrStr(ss) => m.1 matches Value::Arr(xs) && xs@.len() == ss.len() && (forall|
            j: int,
        |
            0 <= j < ss.len() ==> ((#[trigger] xs@[j]) matches Value::Str(x) && x@ == ss[j])),
        FieldSpec::SChat(rc) => m.1 matches Value::Arr(xs) && xs@.len() == rc.len() && (forall|
            j: int,
        | 0 <= j < rc.len() ==> chat_entry_matches(#[trigger] xs@[j], rc[j])),
        FieldSpec::SDims(ds) => m.1 matches Value::Arr(xs) && xs@.len() == ds.len() && (forall|
            j: int,
        | 0 <= j < ds.len() ==> dim_entry_matches(#[trigger] xs@[j], ds[j])),
        FieldSpec::SVal(v) => m.1 == v,
    }
}

/// Whether a value is the object `{"role": r, "content": c}`.
pub open spec fn chat_entry_matches(x: Value, rc: (Seq<char>, Seq<char>)) -> bool {
    x matches Value::Obj(fm) && fm@.len() == 2 && fm@[0].0@ == "role"@ && (fm@[0].1 matches
        Value::Str(r) && r@ == rc.0) && fm@[1].0@ == "content"@ && (fm@[1].1 matches Value::Str(c)
        && c@ == rc.1)
}

/// Whether a value is the object `{"field": d}`.
pub open spec fn dim_entry_matches(x: Value, d: Seq<char>) -> bool {
    x matches Value::Obj(fm) && fm@.len() == 1 && fm@[0].0@ == "field"@ && (fm@[0].1 matches
        Value::Str(s) && s@ == d)
}

/// Whether an object member list has exactly these fields, in order.
pub open spec fn fields_match(ms: Seq<(String, Value)>, fs: Seq<(Seq<char>, FieldSpec)>) -> bool
    decreases ms.len(),
{
    if ms.len() != fs.len() {
        false
    } else if ms.len() == 0 {
        true
    } else {
        fields_match(ms.drop_last(), fs.drop_last()) && field_matches(ms.last(), fs.last())
    }
}

/// Zero or one string field, as the option dictates.
pub open spec fn opt_str_field(key: Seq<char>, v: Option<Seq<char>>) -> Seq<
    (Seq<char>, FieldSpec),
> {
    match v {
        Some(s) => seq![(key, FieldSpec::SStr(s))],
        None => Seq::empty(),
    }
}

/// Zero or one passed-through value field, as the option dictates.
pub open spec fn opt_val_field(key: Seq<char>, v: Option<Value>) -> Seq<(Seq<char>, FieldSpec)> {
    match v {
        Some(x) => seq![(key, FieldSpec::SVal(x))],
        None => Seq::empty(),
    }
}

/// Zero or one string-array field, as the option dictates.
pub open spec fn opt_arrstr_field(key: Seq<char>, v: Option<Seq<Seq<char>>>) -> Seq<
    (Seq<char>, FieldSpec),
> {
    match v {
        Some(ss) => seq![(key, FieldSpec::SArrStr(ss))],
        None => Seq::empty(),
    }
}

/// The `(role, content)` views of a list of chat messages.
pub open spec fn chat_view(msgs: Seq<ChatMessage>) -> Seq<(Seq<char>, Seq<char>)> {
    msgs.map_values(|m: ChatMessage| (m.role@, m.content@))
}

fn push_str_member(
    ms: &mut Vec<(String, Value)>,
    Ghost(fs): Ghost<Seq<(Seq<char>, FieldSpec)>>,
    key: &str,
    val: &str,
)
    requires
        fields_match(old(ms)@, fs),
    ensures
        fields_match(final(ms)@, fs.push((key@, FieldSpec::SStr(val@)))),
{
    ms.push((String::from_str(key), Value::Str(String::from_str(val))));
    proof {
        assert(ms@.drop_last() =~= old(ms)@);
        assert(fs.push((key@, FieldSpec::SStr(val@))).drop_last() =~= fs);
    }
}

fn push_num_member(
    ms: &mut Vec<(String, Value)>,
    Ghost(fs): Ghost<Seq<(Seq<char>, FieldSpec)>>,
    key: &str,
    val: &str,
)
    requires
        fields_match(old(ms)@, fs),
    ensures
        fields_match(final(ms)@, fs.push((key@, FieldSpec::SNum(val@)))),
{
    ms.push((String::from_str(key), Value::Num(String::from_str(val))));
    proof {
        assert(ms@.drop_last() =~= old(ms)@);
        assert(fs.push((key@, FieldSpec::SNum(val@))).drop_last() =~= fs);
    }
}

fn push_val_member(
    ms: &mut Vec<(String, Value)>,
    Ghost(fs): Ghost<Seq<(Seq<char>, FieldSpec)>>,
    key: &str,
    val: Value,
)
    requires
        fields_match(old(ms)@, fs),
    ensures
        fields_match(final(ms)@, fs.push((key@, FieldSpec::SVal(val)))),
{
    ms.push((String::from_str(key), val));
    proof {
        assert(ms@.drop_last() =~= old(ms)@);
        assert(fs.push((key@, FieldSpec::SVal(val))).drop_last() =~= fs);
    }
}

fn push_arrstr_member(
    ms: &mut Vec<(String, Value)>,
    Ghost(fs): Ghost<Seq<(Seq<char>, FieldSpec)>>,
    key: &str,
    vals: &Vec<String>,
)
    requires
        fields_match(old(ms)@, fs),
    ensures
        fields_match(final(ms)@, fs.push((key@, FieldSpec::SArrStr(strs_view(vals@))))),
{
    let n = vals.len();
    let mut arr: Vec<Value> = Vec::new();
    let mut i: usize = 0;
    while i < n
        invariant
            i <= n,
            n == vals@.len(),
            arr@.len() == i,
            forall|j: int|
                0 <= j < i ==> ((#[trigger] arr@[j]) matches Value::Str(x) && x@ == vals@[j]@),
        decreases n - i,
    {
        arr.push(Value::Str(vals[i].clone()));
        i = i + 1;
    }
    ms.push((String::from_str(key), Value::Arr(arr)));
    proof {
        assert(ms@.drop_last() =~= old(ms)@);
        assert(fs.push((key@, FieldSpec::SArrStr(strs_view(vals@)))).drop_last() =~= fs);
    }
}

fn push_chat_member(
    ms: &mut Vec<(String, Value)>,
    Ghost(fs): Ghost<Seq<(Seq<char>, FieldSpec)>>,
    key: &str,
    msgs: &Vec<ChatMessage>,
)
    requires
        fields_match(old(ms)@, fs),
    ensures
        fields_match(final(ms)@, fs.push((key@, FieldSpec::SChat(chat_view(msgs@))))),
{
    let n = msgs.len();
    let mut arr: Vec<Value> = Vec::new();
    let mut i: usize = 0;
    while i < n
        invariant
            i <= n,
            n == msgs@.len(),
            arr@.len() == i,
            forall|j: int| 0 <= j < i ==> chat_entry_matches(#[trigger] arr@[j], chat_view(msgs@)[j]),
        decreases n - i,
    {
        let mut entry: Vec<(String, Value)> = Vec::new();
        entry.push((String::from_str("role"), Value::Str(msgs[i].role.clone())));
        entry.push((String::from_str("content"), Value::Str(msgs[i].content.clone())));
        arr.push(Value::Obj(entry));
        i = i + 1;
    }
    ms.push((String::from_str(key), Value::Arr(arr)));
    proof {
        assert(ms@.drop_last() =~= old(ms)@);
        assert(fs.push((key@, FieldSpec::SChat(chat_view(msgs@)))).drop_last() =~= fs);
    }
}

fn push_dims_member(
    ms: &mut Vec<(String, Value)>,
    Ghost(fs): Ghost<Seq<(Seq<char>, FieldSpec)>>,
    key: &str,
    dims: &Vec<String>,
)
    requires
        fields_match(old(ms)@, fs),
    ensures
        fields_match(final(ms)@, fs.push((key@, FieldSpec::SDims(strs_view(dims@))))),
{
    let n = dims.len();
    let mut arr: Vec<Value> = Vec::new();
    let mut i: usize = 0;
    while i < n
        invariant
            i <= n,
            n == dims@.len(),
            arr@.len() == i,
            forall|j: int| 0 <= j < i ==> dim_entry_matches(#[trigger] arr@[j], strs_view(dims@)[j]),
        decreases n - i,
    {
        let mut entry: Vec<(String, Value)> = Vec::new();
        entry.push((String::from_str("field"), Value::Str(dims[i].clone())));
        arr.push(Value::Obj(entry));
        i = i + 1;
    }
    ms.push((String::from_str(key), Value::Arr(arr)));
    proof {
        assert(ms@.drop_last() =~= old(ms)@);
        assert(fs.push((key@, FieldSpec::SDims(strs_view(dims@)))).drop_last() =~= fs);
    }
}

fn push_opt_str_member(
    ms: &mut Vec<(String, Value)>,
    Ghost(fs): Ghost<Seq<(Seq<char>, FieldSpec)>>,
    key: &str,
    val: Option<&str>,
)
    requires
        fields_match(old(ms)@, fs),
    ensures
        fields_match(final(ms)@, fs + opt_str_field(key@, opt_str_view(val))),
{
    match val {
        Some(v) => {
            push_str_member(ms, Ghost(fs), key, v);
            proof {
                assert(fs.push((key@, FieldSpec::SStr(v@))) =~= fs + opt_str_field(
                    key@,
                    opt_str_view(val),
                ));
            }
        },
        None => {
            proof {
                assert(fs + opt_str_field(key@, opt_str_view(val)) =~= fs);
            }
        },
    }
}

fn push_opt_val_member(
    ms: &mut Vec<(String, Value)>,
    Ghost(fs): Ghost<Seq<(Seq<char>, FieldSpec)>>,
    key: &str,
    val: Option<Value>,
)
    requires
        fields_match(old(ms)@, fs),
    ensures
        fields_match(final(ms)@, fs + opt_val_field(key@, val)),
{
    match val {
        Some(v) => {
            push_val_member(ms, Ghost(fs), key, v);
            proof {
                assert(fs.push((key@, FieldSpec::SVal(v))) =~= fs + opt_val_field(key@, val));
            }
        },
        None => {
            proof {
                assert(fs + opt_val_field(key@, val) =~= fs);
            }
        },
    }
}

/// The views of an optional string list, `None` kept.
pub open spec fn opt_strs_opt(ss: Option<&Vec<String>>) -> Option<Seq<Seq<char>>> {
    match ss {
        Some(v) => Some(strs_view(v@)),
        None => None,
    }
}

fn push_opt_arrstr_member(
    ms: &mut Vec<(String, Value)>,
    Ghost(fs): Ghost<Seq<(Seq<char>, FieldSpec)>>,
    key: &str,
    vals: Option<&Vec<String>>,
)
    requires
        fields_match(old(ms)@, fs),
    ensures
        fields_match(final(ms)@, fs + opt_arrstr_field(key@, opt_strs_opt(vals))),
{
    match vals {
        Some(v) => {
            push_arrstr_member(ms, Ghost(fs), key, v);
            proof {
                assert(fs.push((key@, FieldSpec::SArrStr(strs_view(v@)))) =~= fs
                    + opt_arrstr_field(key@, opt_strs_opt(vals)));
            }
        },
        None => {
            proof {
                assert(fs + opt_arrstr_field(key@, opt_strs_opt(vals)) =~= fs);
            }
        },
    }
}

/// The body of a create-score request: name and numeric value first, then
/// whichever of the optional attachments the caller gave, in this order.
pub fn score_body(
    name: &str,
    value: &str,
    trace_id: Option<&str>,
    observation_id: Option<&str>,
    session_id: Option<&str>,
    data_type: Option<&str>,
    comment: Option<&str>,
) -> (r: Value)
    ensures
        r matches Value::Obj(ms) && fields_match(
            ms@,
            seq![("name"@, FieldSpec::SStr(name@)), ("value"@, FieldSpec::SNum(value@))]
                + opt_str_field("traceId"@, opt_str_view(trace_id)) + opt_str_field(
                "observationId"@,
                opt_str_view(observation_id),
            ) + opt_str_field("sessionId"@, opt_str_view(session_id)) + opt_str_field(
                "dataType"@,
                opt_str_view(data_type),
            ) + opt_str_field("comment"@, opt_str_view(comment)),
        ),
{
    let mut ms: Vec<(String, Value)> = Vec::new();
    let ghost fs0 = Seq::<(Seq<char>, FieldSpec)>::empty();
    push_str_member(&mut ms, Ghost(fs0), "name", name);
    let ghost fs1 = fs0.push(("name"@, FieldSpec::SStr(name@)));
    push_num_member(&mut ms, Ghost(fs1), "value", value);
    let ghost fs2 = fs1.push(("value"@, FieldSpec::SNum(value@)));
    proof {
        assert(fs2 =~= seq![("name"@, FieldSpec::SStr(name@)), ("value"@, FieldSpec::SNum(
            value@,
        ))]);
    }
    push_opt_str_member(&mut ms, Ghost(fs2), "traceId", trace_id);
    let ghost fs3 = fs2 + opt_str_field("traceId"@, opt_str_view(trace_id));
    push_opt_str_member(&mut ms, Ghost(fs3), "observationId", observation_id);
    let ghost fs4 = fs3 + opt_str_field("observationId"@, opt_str_view(observation_id));
    push_opt_str_member(&mut ms, Ghost(fs4), "sessionId", session_id);
    let ghost fs5 = fs4 + opt_str_field("sessionId"@, opt_str_view(session_id));
    push_opt_str_member(&mut ms, Ghost(fs5), "dataType", data_type);
    let ghost fs6 = fs5 + opt_str_field("dataType"@, opt_str_view(data_type));
    push_opt_str_member(&mut ms, Ghost(fs6), "comment", comment);
    Value::Obj(ms)
}

/// The body of a metrics query: view, measure and aggregation first, then
/// whichever of dimensions, time range, granularity and limit the caller
/// gave, in this order. Each dimension becomes one `{"field": name}`
/// selector.
pub fn metrics_body(
    view: &str,
    measure: &str,
    aggregation: &str,
    dimensions: Option<&Vec<String>>,
    from_timestamp: Option<&str>,
    to_timestamp: Option<&str>,
    granularity: Option<&str>,
    limit: Option<u32>,
) -> (r: Value)
    ensures
        r matches Value::Obj(ms) && fields_match(
            ms@,
            seq![("view"@, FieldSpec::SStr(view@)), ("measure"@, FieldSpec::SStr(measure@)), (
                "aggregation"@,
                FieldSpec::SStr(aggregation@),
            )] + (match opt_strs_opt(dimensions) {
                Some(ds) => seq![("dimensions"@, FieldSpec::SDims(ds))],
                None => Seq::empty(),
            }) + opt_str_field("fromTimestamp"@, opt_str_view(from_timestamp)) + opt_str_field(
                "toTimestamp"@,
                opt_str_view(to_timestamp),
            ) + opt_str_field("granularity"@, opt_str_view(granularity)) + (match limit {
                Some(l) => seq![("limit"@, FieldSpec::SNum(dec_str(l as int)))],
                None => Seq::empty(),
            }),
        ),
{
    let mut ms: Vec<(String, Value)> = Vec::new();
    let ghost fs0 = Seq::<(Seq<char>, FieldSpec)>::empty();
    push_str_member(&mut ms, Ghost(fs0), "view", view);
    let ghost fs1 = fs0.push(("view"@, FieldSpec::SStr(view@)));
    push_str_member(&mut ms, Ghost(fs1), "measure", measure);
    let ghost fs2 = fs1.push(("measure"@, FieldSpec::SStr(measure@)));
    push_str_member(&mut ms, Ghost(fs2), "aggregation", aggregation);
    let ghost fs3 = fs2.push(("aggregation"@, FieldSpec::SStr(aggregation@)));
    proof {
        assert(fs3 =~= seq![("view"@, FieldSpec::SStr(view@)), ("measure"@, FieldSpec::SStr(
            measure@,
        )), ("aggregation"@, FieldSpec::SStr(aggregation@))]);
    }
    match dimensions {
        Some(ds) => {
            push_dims_member(&mut ms, Ghost(fs3), "dimensions", ds);
        },
        None => {},
    }
    let ghost fs4 = fs3 + (match opt_strs_opt(dimensions) {
        Some(ds) => seq![("dimensions"@, FieldSpec::SDims(ds))],
        None => Seq::empty(),
    });
    proof {
        match opt_strs_opt(dimensions) {
            Some(ds) => {
                assert(fs3.push(("dimensions"@, FieldSpec::SDims(ds))) =~= fs4);
            },
            None => {
                assert(fs4 =~= fs3);
            },
        }
    }
    push_opt_str_member(&mut ms, Ghost(fs4), "fromTimestamp", from_timestamp);
    let ghost fs5 = fs4 + opt_str_field("fromTimestamp"@, opt_str_view(from_timestamp));
    push_opt_str_member(&mut ms, Ghost(fs5), "toTimestamp", to_timestamp);
    let ghost fs6 = fs5 + opt_str_field("toTimestamp"@, opt_str_view(to_timestamp));
    push_opt_str_member(&mut ms, Ghost(fs6), "granularity", granularity);
    let ghost fs7 = fs6 + opt_str_field("granularity"@, opt_str_view(granularity));
    match limit {
        Some(l) => {
            let text = u64_to_string(l as u64);
            push_num_member(&mut ms, Ghost(fs7), "limit", text.as_str());
        },
        None => {},
    }
    proof {
        let fs8 = fs7 + (match limit {
            Some(l) => seq![("limit"@, FieldSpec::SNum(dec_str(l as int)))],
            None => Seq::<(Seq<char>, FieldSpec)>::empty(),
        });
        match limit {
            Some(l) => {
                assert(fs7.push(("limit"@, FieldSpec::SNum(dec_str(l as int)))) =~= fs8);
            },
            None => {
                assert(fs8 =~= fs7);
            },
        }
    }
    Value::Obj(ms)
}

/// The body of a create-text-prompt request.
pub fn text_prompt_body(
    name: &str,
    prompt: &str,
    labels: Option<&Vec<String>>,
    tags: Option<&Vec<String>>,
    config: Option<Value>,
    commit_message: Option<&str>,
) -> (r: Value)
    ensures
        r matches Value::Obj(ms) && fields_match(
            ms@,
            seq![("name"@, FieldSpec::SStr(name@)), ("type"@, FieldSpec::SStr("text"@)), (
                "prompt"@,
                FieldSpec::SStr(prompt@),
            )] + opt_arrstr_field("labels"@, opt_strs_opt(labels)) + opt_arrstr_field(
                "tags"@,
                opt_strs_opt(tags),
            ) + opt_val_field("config"@, config) + opt_str_field(
                "commitMessage"@,
                opt_str_view(commit_message),
            ),
        ),
{
    let mut ms: Vec<(String, Value)> = Vec::new();
    let ghost fs0 = Seq::<(Seq<char>, FieldSpec)>::empty();
    push_str_member(&mut ms, Ghost(fs0), "name", name);
    let ghost fs1 = fs0.push(("name"@, FieldSpec::SStr(name@)));
    push_str_member(&mut ms, Ghost(fs1), "type", "text");
    let ghost fs2 = fs1.push(("type"@, FieldSpec::SStr("text"@)));
    push_str_member(&mut ms, Ghost(fs2), "prompt", prompt);
    let ghost fs3 = fs2.push(("prompt"@, FieldSpec::SStr(prompt@)));
    proof {
        assert(fs3 =~= seq![("name"@, FieldSpec::SStr(name@)), ("type"@, FieldSpec::SStr(
            "text"@,
        )), ("prompt"@, FieldSpec::SStr(prompt@))]);
    }
    push_opt_arrstr_member(&mut ms, Ghost(fs3), "labels", labels);
    let ghost fs4 = fs3 + opt_arrstr_field("labels"@, opt_strs_opt(labels));
    push_opt_arrstr_member(&mut ms, Ghost(fs4), "tags", tags);
    let ghost fs5 = fs4 + opt_arrstr_field("tags"@, opt_strs_opt(tags));
    push_opt_val_member(&mut ms, Ghost(fs5), "config", config);
    let ghost fs6 = fs5 + opt_val_field("config"@, config);
    push_opt_str_member(&mut ms, Ghost(fs6), "commitMessage", commit_message);
    Value::Obj(ms)
}

/// The body of a create-chat-prompt request: the prompt is the list of
/// `{role, content}` messages.
pub fn chat_prompt_body(
    name: &str,
    messages: &Vec<ChatMessage>,
    labels: Option<&Vec<String>>,
    tags: Option<&Vec<String>>,
    config: Option<Value>,
    commit_message: Option<&str>,
) -> (r: Value)
    ensures
        r matches Value::Obj(ms) && fields_match(
            ms@,
            seq![("name"@, FieldSpec::SStr(name@)), ("type"@, FieldSpec::SStr("chat"@)), (
                "prompt"@,
                FieldSpec::SChat(chat_view(messages@)),
            )] + opt_arrstr_field("labels"@, opt_strs_opt(labels)) + opt_arrstr_field(
                "tags"@,
                opt_strs_opt(tags),
            ) + opt_val_field("config"@, config) + opt_str_field(
                "commitMessage"@,
                opt_str_view(commit_message),
            ),
        ),
{
    let mut ms: Vec<(String, Value)> = Vec::new();
    let ghost fs0 = Seq::<(Seq<char>, FieldSpec)>::empty();
    push_str_member(&mut ms, Ghost(fs0), "name", name);
    let ghost fs1 = fs0.push(("name"@, FieldSpec::SStr(name@)));
    push_str_member(&mut ms, Ghost(fs1), "type", "chat");
    let ghost fs2 = fs1.push(("type"@, FieldSpec::SStr("chat"@)));
    push_chat_member(&mut ms, Ghost(fs2), "prompt", messages);
    let ghost fs3 = fs2.push(("prompt"@, FieldSpec::SChat(chat_view(messages@))));
    proof {
        assert(fs3 =~= seq![("name"@, FieldSpec::SStr(name@)), ("type"@, FieldSpec::SStr(
            "chat"@,
        )), ("prompt"@, FieldSpec::SChat(chat_view(messages@)))]);
    }
    push_opt_arrstr_member(&mut ms, Ghost(fs3), "labels", labels);
    let ghost fs4 = fs3 + opt_arrstr_field("labels"@, opt_strs_opt(labels));
    push_opt_arrstr_member(&mut ms, Ghost(fs4), "tags", tags);
    let ghost fs5 = fs4 + opt_arrstr_field("tags"@, opt_strs_opt(tags));
    push_opt_val_member(&mut ms, Ghost(fs5), "config", config);
    let ghost fs6 = fs5 + opt_val_field("config"@, config);
    push_opt_str_member(&mut ms, Ghost(fs6), "commitMessage", commit_message);
    Value::Obj(ms)
}

/// The body of an update-prompt-labels request.
pub fn labels_body(labels: &Vec<String>) -> (r: Value)
    ensures
        r matches Value::Obj(ms) && fields_match(
            ms@,
            seq![("newLabels"@, FieldSpec::SArrStr(strs_view(labels@)))],
        ),
{
    let mut ms: Vec<(String, Value)> = Vec::new();
    let ghost fs0 = Seq::<(Seq<char>, FieldSpec)>::empty();
    push_arrstr_member(&mut ms, Ghost(fs0), "newLabels", labels);
    proof {
        assert(fs0.push(("newLabels"@, FieldSpec::SArrStr(strs_view(labels@)))) =~= seq![(
            "newLabels"@,
            FieldSpec::SArrStr(strs_view(labels@)),
        )]);
    }
    Value::Obj(ms)
}

/// The body of a create-dataset request.
pub fn dataset_body(name: &str, description: Option<&str>, metadata: Option<Value>) -> (r: Value)
    ensures
        r matches Value::Obj(ms) && fields_match(
            ms@,
            seq![("name"@, FieldSpec::SStr(name@))] + opt_str_field(
                "description"@,
                opt_str_view(description),
            ) + opt_val_field("metadata"@, metadata),
        ),
{
    let mut ms: Vec<(String, Value)> = Vec::new();
    let ghost fs0 = Seq::<(Seq<char>, FieldSpec)>::empty();
    push_str_member(&mut ms, Ghost(fs0), "name", name);
    let ghost fs1 = fs0.push(("name"@, FieldSpec::SStr(name@)));
    proof {
        assert(fs1 =~= seq![("name"@, FieldSpec::SStr(name@))]);
    }
    push_opt_str_member(&mut ms, Ghost(fs1), "description", description);
    let ghost fs2 = fs1 + opt_str_field("description"@, opt_str_view(description));
    push_opt_val_member(&mut ms, Ghost(fs2), "metadata", metadata);
    Value::Obj(ms)
}

/// The body of a create-dataset-item request.
pub fn dataset_item_body(
    dataset_name: &str,
    input: Value,
    expected_output: Option<Value>,
    metadata: Option<Value>,
    source_trace_id: Option<&str>,
    source_observation_id: Option<&str>,
) -> (r: Value)
    ensures
        r matches Value::Obj(ms) && fields_match(
            ms@,
            seq![("datasetName"@, FieldSpec::SStr(dataset_name@)), ("input"@, FieldSpec::SVal(
                input,
            ))] + opt_val_field("expectedOutput"@, expected_output) + opt_val_field(
                "metadata"@,
                metadata,
            ) + opt_str_field("sourceTraceId"@, opt_str_view(source_trace_id)) + opt_str_field(
                "sourceObservationId"@,
                opt_str_view(source_observation_id),
            ),
        ),
{
    let mut ms: Vec<(String, Value)> = Vec::new();
    let ghost fs0 = Seq::<(Seq<char>, FieldSpec)>::empty();
    push_str_member(&mut ms, Ghost(fs0), "datasetName", dataset_name);
    let ghost fs1 = fs0.push(("datasetName"@, FieldSpec::SStr(dataset_name@)));
    push_val_member(&mut ms, Ghost(fs1), "input", input);
    let ghost fs2 = fs1.push(("input"@, FieldSpec::SVal(input)));
    proof {
        assert(fs2 =~= seq![("datasetName"@, FieldSpec::SStr(dataset_name@)), (
            "input"@,
            FieldSpec::SVal(input),
        )]);
    }
    push_opt_val_member(&mut ms, Ghost(fs2), "expectedOutput", expected_output);
    let ghost fs3 = fs2 + opt_val_field("expectedOutput"@, expected_output);
    push_opt_val_member(&mut ms, Ghost(fs3), "metadata", metadata);
    let ghost fs4 = fs3 + opt_val_field("metadata"@, metadata);
    push_opt_str_member(&mut ms, Ghost(fs4), "sourceTraceId", source_trace_id);
    let ghost fs5 = fs4 + opt_str_field("sourceTraceId"@, opt_str_view(source_trace_id));
    push_opt_str_member(&mut ms, Ghost(fs5), "sourceObservationId", source_observation_id);
    Value::Obj(ms)
}

} // verus!
