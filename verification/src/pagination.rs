//! The pagination driver's decisions. The driver itself is a state machine:
//! the binary issues one GET per step and feeds each page's data and
//! reported total back in; the machine accumulates records, decides when to
//! stop, and truncates to the caller's limit. The wire-level page size is
//! capped at 100 whatever the caller asked for.

use vstd::prelude::*;

use crate::strutil::parse_i32;
use crate::strutil::spec_parse_i32;
use crate::value::has_key;
use crate::value::spec_lookup;
use crate::value::take_member;
use crate::value::Value;

verus! {

/// What the driver asks for after a page was taken in: fetch the next page,
/// or stop.
#[derive(Debug, Clone, Copy, PartialEq, Eq, Structural)]
pub enum PageStep {
    Continue,
    Done,
}

/// The state of one paginated fetch.
#[derive(Debug)]
pub struct Paginator {
    /// How many records the caller asked for in total.
    pub limit: u32,
    /// The page size put on the wire: the limit, capped at 100.
    pub page_size: u32,
    /// The page the next request asks for.
    pub current_page: u32,
    /// The records accumulated so far, in server order.
    pub records: Vec<Value>,
    /// Whether the fetch is over.
    pub finished: bool,
}

impl Paginator {
    /// The state invariant: the wire page size is the capped limit, and no
    /// more than `limit` records are ever held.
    pub open spec fn wf(self) -> bool {
        &&& self.page_size == (if self.limit < 100 {
            self.limit
        } else {
            100u32
        })
        &&& self.records@.len() <= self.limit
    }

    /// Starts a fetch: nothing accumulated, the requested page next, and a
    /// wire page size of `min(limit, 100)` — never above 100.
    pub fn new(limit: u32, start_page: u32) -> (p: Paginator)
        ensures
            p.wf(),
            p.limit == limit,
            p.page_size == (if limit < 100 {
                limit
            } else {
                100u32
            }),
            p.page_size <= 100,
            p.current_page == start_page,
            p.records@.len() == 0,
            !p.finished,
    {
        let page_size = if limit < 100 {
            limit
        } else {
            100
        };
        Paginator {
            limit,
            page_size,
            current_page: start_page,
            records: Vec::new(),
            finished: false,
        }
    }

    /// Takes one page in. The page's records are appended in order; then,
    /// in this order: if the accumulation reached the limit it is cut to
    /// exactly the limit and the fetch is done; otherwise, if the server
    /// reported a total page count that the current page reaches, the fetch
    /// is done; otherwise the fetch moves to the next page.
    ///
    /// Note the deliberate gap: when the server reports no total page
    /// count, the only stopping rule left is the caller's limit. A
    /// misbehaving server that keeps answering with pages too short to
    /// ever meet the limit keeps the fetch running; there is no
    /// independent stop on an empty or short page.
    pub fn accept_page(&mut self, data: Vec<Value>, total_pages: Option<i32>) -> (step: PageStep)
        requires
            old(self).wf(),
            !old(self).finished,
            old(self).current_page < u32::MAX,
        ensures
            final(self).wf(),
            final(self).limit == old(self).limit,
            final(self).page_size == old(self).page_size,
            ({
                let combined = old(self).records@ + data@;
                if combined.len() >= old(self).limit {
                    &&& final(self).records@ == combined.take(old(self).limit as int)
                    &&& final(self).finished
                    &&& step == PageStep::Done
                    &&& final(self).current_page == old(self).current_page
                } else if total_pages matches Some(tp) && old(self).current_page >= tp as u32 {
                    &&& final(self).records@ == combined
                    &&& final(self).finished
                    &&& step == PageStep::Done
                    &&& final(self).current_page == old(self).current_page
                } else {
                    &&& final(self).records@ == combined
                    &&& !final(self).finished
                    &&& step == PageStep::Continue
                    &&& final(self).current_page == old(self).current_page + 1
                }
            }),
    {
        let mut data = data;
        let ghost combined = self.records@ + data@;
        self.records.append(&mut data);
        proof {
            assert(self.records@ == combined);
        }
        if self.records.len() >= self.limit as usize {
            self.records.truncate(self.limit as usize);
            self.finished = true;
            proof {
                assert(self.records@ =~= combined.take(self.limit as int));
            }
            return PageStep::Done;
        }
        if let Some(tp) = total_pages {
            if self.current_page >= tp as u32 {
                self.finished = true;
                return PageStep::Done;
            }
        }
        self.current_page = self.current_page + 1;
        PageStep::Continue
    }

    /// Hands the accumulated records out.
    pub fn into_records(self) -> (r: Vec<Value>)
        ensures
            r@ == self.records@,
    {
        self.records
    }
}

/// The records of one page envelope: the array under its `data` member,
/// or nothing.
pub open spec fn page_data(v: Value) -> Seq<Value> {
    match v {
        Value::Obj(ms) => if has_key(ms@, "data"@) {
            match spec_lookup(ms@, "data"@) {
                Value::Arr(items) => items@,
                _ => Seq::empty(),
            }
        } else {
            Seq::empty()
        },
        _ => Seq::empty(),
    }
}

/// The total page count one page envelope reports: the number under
/// `meta.totalPages`, read as a decimal integer; `None` where any part of
/// that chain is missing or not of that shape.
pub open spec fn page_total_pages(v: Value) -> Option<i32> {
    match v {
        Value::Obj(ms) => if has_key(ms@, "meta"@) {
            match spec_lookup(ms@, "meta"@) {
                Value::Obj(mm) => if has_key(mm@, "totalPages"@) {
                    match spec_lookup(mm@, "totalPages"@) {
                        Value::Num(text) => spec_parse_i32(text@),
                        _ => None,
                    }
                } else {
                    None
                },
                _ => None,
            }
        } else {
            None
        },
        _ => None,
    }
}

/// Splits one page envelope into its records and its reported total page
/// count.
pub fn split_page(response: Value) -> (r: (Vec<Value>, Option<i32>))
    ensures
        r.0@ == page_data(response),
        r.1 == page_total_pages(response),
{
    let data_key = String::from_str("data");
    let meta_key = String::from_str("meta");
    match response {
        Value::Obj(ms) => {
            let mut ms = ms;
            let ghost orig = ms@;
            let mut data_member: Option<Value> = None;
            let mut meta_member: Option<Value> = None;
            let ghost k: int = 0;
            proof {
                assert(ms@ =~= orig.skip(0));
            }
            while ms.len() > 0
                invariant
                    0 <= k <= orig.len(),
                    ms@ == orig.skip(k),
                    data_key@ == "data"@,
                    meta_key@ == "meta"@,
                    data_member is None ==> {
                        &&& forall|j: int| 0 <= j < k ==> orig[j].0@ != "data"@
                        &&& spec_lookup(orig, "data"@) == spec_lookup(orig.skip(k), "data"@)
                    },
                    data_member matches Some(dv) ==> has_key(orig, "data"@) && dv == spec_lookup(
                        orig,
                        "data"@,
                    ),
                    meta_member is None ==> {
                        &&& forall|j: int| 0 <= j < k ==> orig[j].0@ != "meta"@
                        &&& spec_lookup(orig, "meta"@) == spec_lookup(orig.skip(k), "meta"@)
                    },
                    meta_member matches Some(mv) ==> has_key(orig, "meta"@) && mv == spec_lookup(
                        orig,
                        "meta"@,
                    ),
                decreases ms@.len(),
            {
                let m = ms.remove(0);
                proof {
                    reveal_strlit("data");
                    reveal_strlit("meta");
                    assert("data"@[0] == 'd' && "meta"@[0] == 'm');
                    assert("data"@ != "meta"@);
                    assert(m == orig.skip(k)[0]);
                    assert(m == orig[k]);
                    assert(ms@ =~= orig.skip(k + 1));
                    assert(orig.skip(k).drop_first() =~= orig.skip(k + 1));
                }
                if data_member.is_none() && m.0.eq(&data_key) {
                    proof {
                        assert(spec_lookup(orig.skip(k), "data"@) == orig[k].1);
                        assert(has_key(orig, "data"@)) by {
                            assert(orig[k].0@ == "data"@);
                        }
                    }
                    data_member = Some(m.1);
                } else if meta_member.is_none() && m.0.eq(&meta_key) {
                    proof {
                        assert(spec_lookup(orig.skip(k), "meta"@) == orig[k].1);
                        assert(has_key(orig, "meta"@)) by {
                            assert(orig[k].0@ == "meta"@);
                        }
                    }
                    meta_member = Some(m.1);
                }
                proof {
                    k = k + 1;
                }
            }
            proof {
                assert(orig.skip(k).len() == 0);
                assert(k == orig.len());
                if data_member is None && has_key(orig, "data"@) {
                    let w = choose|w: int| 0 <= w < orig.len() && orig[w].0@ == "data"@;
                    assert(orig[w].0@ != "data"@);
                }
                if meta_member is None && has_key(orig, "meta"@) {
                    let w = choose|w: int| 0 <= w < orig.len() && orig[w].0@ == "meta"@;
                    assert(orig[w].0@ != "meta"@);
                }
            }
            let data: Vec<Value> = match data_member {
                Some(Value::Arr(items)) => items,
                _ => Vec::new(),
            };
            let total_pages: Option<i32> = match meta_member {
                Some(meta_value) => {
                    if meta_value.is_object() {
                        match take_member(meta_value, "totalPages") {
                            Some(Value::Num(text)) => parse_i32(text.as_str()),
                            _ => None,
                        }
                    } else {
                        None
                    }
                },
                None => None,
            };
            (data, total_pages)
        },
        _ => (Vec::new(), None),
    }
}

} // verus!
