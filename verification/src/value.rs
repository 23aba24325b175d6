//! The library's schema-less JSON-like value: the shape every record takes
//! inside the engine and the rendering pipeline. Numbers are carried as their
//! canonical decimal text, which is all the pipeline ever needs of them.

use vstd::prelude::*;

verus! {

/// A JSON-like value. Object members keep their order; the callers that
/// build objects from parsed JSON hand the keys over in the parser's order.
#[derive(Debug)]
pub enum Value {
    Null,
    Bool(bool),
    /// The canonical decimal text of a JSON number, e.g. `"42"` or `"45.67"`.
    Num(String),
    Str(String),
    Arr(Vec<Value>),
    Obj(Vec<(String, Value)>),
}

impl Value {
    /// Whether this value is an object.
    pub fn is_object(&self) -> (r: bool)
        ensures
            r == (self is Obj),
    {
        match self {
            Value::Obj(_) => true,
            _ => false,
        }
    }

    /// Whether this value is an array.
    pub fn is_array(&self) -> (r: bool)
        ensures
            r == (self is Arr),
    {
        match self {
            Value::Arr(_) => true,
            _ => false,
        }
    }
}

/// Whether an object member list holds the given key.
pub open spec fn has_key(ms: Seq<(String, Value)>, key: Seq<char>) -> bool {
    exists|i: int| 0 <= i < ms.len() && ms[i].0@ == key
}

/// The value under the first member with the given key.
pub open spec fn spec_lookup(ms: Seq<(String, Value)>, key: Seq<char>) -> Value
    decreases ms.len(),
{
    if ms.len() == 0 {
        Value::Null
    } else if ms[0].0@ == key {
        ms[0].1
    } else {
        spec_lookup(ms.drop_first(), key)
    }
}

/// Looks a key up among an object's members; `None` for missing keys and
/// for values that are not objects.
pub fn lookup<'a>(v: &'a Value, key: &str) -> (r: Option<&'a Value>)
    ensures
        v is Obj ==> (r is Some <==> has_key(v->Obj_0@, key@)),
        v is Obj ==> (r matches Some(p) ==> *p == spec_lookup(v->Obj_0@, key@)),
        !(v is Obj) ==> r is None,
{
    let key_string = String::from_str(key);
    match v {
        Value::Obj(ms) => {
            let n = ms.len();
            let mut i: usize = 0;
            proof {
                assert(ms@.skip(0) =~= ms@);
            }
            while i < n
                invariant
                    i <= n,
                    n == ms@.len(),
                    *v == Value::Obj(*ms),
                    key_string@ == key@,
                    forall|j: int| 0 <= j < i ==> ms@[j].0@ != key@,
                    spec_lookup(ms@, key@) == spec_lookup(ms@.skip(i as int), key@),
                decreases n - i,
            {
                if ms[i].0.eq(&key_string) {
                    proof {
                        assert(ms@.skip(i as int)[0] == ms@[i as int]);
                        assert(spec_lookup(ms@.skip(i as int), key@) == ms@[i as int].1);
                    }
                    return Some(&ms[i].1);
                }
                proof {
                    assert(ms@.skip(i as int)[0] == ms@[i as int]);
                    assert(ms@.skip(i as int).drop_first() =~= ms@.skip(i + 1));
                }
                i = i + 1;
            }
            proof {
                if has_key(ms@, key@) {
                    let w = choose|w: int| 0 <= w < ms@.len() && ms@[w].0@ == key@;
                    assert(ms@[w].0@ != key@);
                }
            }
            None
        },
        _ => None,
    }
}

/// An observation's members with the bulky `input` and `output` fields
/// removed and everything else kept in order.
pub open spec fn stripped_members(ms: Seq<(String, Value)>) -> Seq<(String, Value)>
    decreases ms.len(),
{
    if ms.len() == 0 {
        ms
    } else {
        let rest = stripped_members(ms.drop_last());
        if ms.last().0@ != "input"@ && ms.last().0@ != "output"@ {
            rest.push(ms.last())
        } else {
            rest
        }
    }
}

/// Strips the large content fields (`input`, `output`) from an
/// observation: an object loses those two members, every other value is
/// returned unchanged.
pub fn strip_observation_content(obs: Value) -> (r: Value)
    ensures
        obs matches Value::Obj(ms) ==> (r matches Value::Obj(rms) && rms@ == stripped_members(
            ms@,
        )),
        !(obs is Obj) ==> r == obs,
{
    let input_key = String::from_str("input");
    let output_key = String::from_str("output");
    match obs {
        Value::Obj(ms) => {
            let mut ms = ms;
            let ghost orig = ms@;
            let mut out: Vec<(String, Value)> = Vec::new();
            let ghost k: int = 0;
            proof {
                assert(ms@ =~= orig.skip(0));
                assert(orig.take(0) =~= Seq::<(String, Value)>::empty());
            }
            while ms.len() > 0
                invariant
                    0 <= k <= orig.len(),
                    ms@ == orig.skip(k),
                    out@ == stripped_members(orig.take(k)),
                    input_key@ == "input"@,
                    output_key@ == "output"@,
                decreases ms@.len(),
            {
                let m = ms.remove(0);
                proof {
                    assert(m == orig.skip(k)[0]);
                    assert(m == orig[k]);
                    assert(ms@ =~= orig.skip(k + 1));
                    assert(orig.take(k + 1).drop_last() =~= orig.take(k));
                    assert(orig.take(k + 1).last() == orig[k]);
                }
                let keep = !m.0.eq(&input_key) && !m.0.eq(&output_key);
                if keep {
                    out.push(m);
                }
                proof {
                    assert(out@ == stripped_members(orig.take(k + 1)));
                    k = k + 1;
                }
            }
            proof {
                assert(orig.take(orig.len() as int) =~= orig);
                assert(orig.skip(k).len() == 0);
                assert(k == orig.len());
            }
            Value::Obj(out)
        },
        other => other,
    }
}

/// Takes the value under the first member with the given key out of an
/// object; `None` for missing keys and for values that are not objects.
pub fn take_member(v: Value, key: &str) -> (r: Option<Value>)
    ensures
        v is Obj && has_key(v->Obj_0@, key@) ==> r == Some(spec_lookup(v->Obj_0@, key@)),
        v is Obj && !has_key(v->Obj_0@, key@) ==> r is None,
        !(v is Obj) ==> r is None,
{
    let key_string = String::from_str(key);
    match v {
        Value::Obj(ms) => {
            let mut ms = ms;
            let ghost orig = ms@;
            let ghost k: int = 0;
            proof {
                assert(ms@ =~= orig.skip(0));
            }
            while ms.len() > 0
                invariant
                    0 <= k <= orig.len(),
                    v is Obj,
                    v->Obj_0@ == orig,
                    ms@ == orig.skip(k),
                    key_string@ == key@,
                    forall|j: int| 0 <= j < k ==> orig[j].0@ != key@,
                    spec_lookup(orig, key@) == spec_lookup(orig.skip(k), key@),
                decreases ms@.len(),
            {
                let m = ms.remove(0);
                proof {
                    assert(m == orig.skip(k)[0]);
                    assert(m == orig[k]);
                    assert(ms@ =~= orig.skip(k + 1));
                    assert(orig.skip(k).drop_first() =~= orig.skip(k + 1));
                }
                if m.0.eq(&key_string) {
                    proof {
                        assert(spec_lookup(orig.skip(k), key@) == orig[k].1);
                        assert(has_key(orig, key@)) by {
                            assert(orig[k].0@ == key@);
                        }
                    }
                    return Some(m.1);
                }
                proof {
                    k = k + 1;
                }
            }
            proof {
                assert(orig.skip(k).len() == 0);
                assert(k == orig.len());
                if has_key(orig, key@) {
                    let w = choose|w: int| 0 <= w < orig.len() && orig[w].0@ == key@;
                    assert(orig[w].0@ != key@);
                }
            }
            None
        },
        _ => None,
    }
}

/// An object's members with every member under the given key removed and
/// everything else kept in order.
pub open spec fn members_without(ms: Seq<(String, Value)>, key: Seq<char>) -> Seq<(String, Value)>
    decreases ms.len(),
{
    if ms.len() == 0 {
        ms
    } else {
        let rest = members_without(ms.drop_last(), key);
        if ms.last().0@ != key {
            rest.push(ms.last())
        } else {
            rest
        }
    }
}

/// Attaches a list of observations to a trace: an object gets exactly one
/// `observations` member, holding the given records, as its last member;
/// any other value is returned unchanged.
pub fn attach_observations(trace: Value, observations: Vec<Value>) -> (r: Value)
    ensures
        trace matches Value::Obj(ms) ==> (r matches Value::Obj(rms) && {
            &&& rms@.len() == members_without(ms@, "observations"@).len() + 1
            &&& rms@.drop_last() == members_without(ms@, "observations"@)
            &&& rms@.last().0@ == "observations"@
            &&& (rms@.last().1 matches Value::Arr(xs) && xs@ == observations@)
        }),
        !(trace is Obj) ==> r == trace,
{
    let obs_key = String::from_str("observations");
    match trace {
        Value::Obj(ms) => {
            let mut ms = ms;
            let ghost orig = ms@;
            let mut out: Vec<(String, Value)> = Vec::new();
            let ghost k: int = 0;
            proof {
                assert(ms@ =~= orig.skip(0));
                assert(orig.take(0) =~= Seq::<(String, Value)>::empty());
            }
            while ms.len() > 0
                invariant
                    0 <= k <= orig.len(),
                    ms@ == orig.skip(k),
                    out@ == members_without(orig.take(k), "observations"@),
                    obs_key@ == "observations"@,
                decreases ms@.len(),
            {
                let m = ms.remove(0);
                proof {
                    assert(m == orig.skip(k)[0]);
                    assert(m == orig[k]);
                    assert(ms@ =~= orig.skip(k + 1));
                    assert(orig.take(k + 1).drop_last() =~= orig.take(k));
                    assert(orig.take(k + 1).last() == orig[k]);
                }
                if !m.0.eq(&obs_key) {
                    out.push(m);
                }
                proof {
                    assert(out@ == members_without(orig.take(k + 1), "observations"@));
                    k = k + 1;
                }
            }
            proof {
                assert(orig.skip(k).len() == 0);
                assert(k == orig.len());
                assert(orig.take(orig.len() as int) =~= orig);
            }
            out.push((obs_key, Value::Arr(observations)));
            proof {
                assert(out@.drop_last() =~= members_without(orig, "observations"@));
            }
            Value::Obj(out)
        },
        other => other,
    }
}

} // verus!
