//! Planning cycles: the defaults of an idempotent create, and the checks that decide whether a
//! cycle may be frozen.
use crate::text::{
    contains_text, lemma_text_lt_total, lemma_text_lt_transitive, str_eq, string_views, text_less,
    text_lt,
};
use vstd::prelude::*;

verus! {

/// A request to make sure a cycle exists (open).
pub struct EnsureCycle {
    pub cycle_id: String,
    pub label: Option<String>,
    /// A JSON array of `YYYY-MM` strings.
    pub target_months: Option<String>,
}

/// A request to freeze a cycle.
pub struct FreezeCycle {
    pub cycle_id: String,
    pub frozen_by: String,
}

/// The label and target months a new cycle is created with: the label defaults to the cycle's
/// id, the target months to an empty JSON array.
pub fn ensure_values<'a>(cycle_id: &'a str, label: Option<&'a str>, target_months: Option<&'a str>) -> (r: (&'a str, &'a str))
    ensures
        r.0@ == match label {
            Some(l) => l@,
            None => cycle_id@,
        },
        r.1@ == match target_months {
            Some(t) => t@,
            None => "[]"@,
        },
{
    let l = match label {
        Some(l) => l,
        None => cycle_id,
    };
    let t = match target_months {
        Some(t) => t,
        None => "[]",
    };
    (l, t)
}

/// Why a freeze was refused.
pub enum FreezeError {
    NotFound,
    Closed,
    Empty,
    Incomplete { missing_months: Vec<String> },
    InvalidTargetMonths,
    Db(sqlx::Error),
}

/// What the cycle's status says about a freeze.
#[derive(PartialEq, Eq, Structural, Debug, Clone, Copy)]
pub enum FreezeGate {
    /// The cycle is open: check its consensus, then freeze it.
    Proceed,
    /// The cycle is already frozen: a repeated freeze does nothing.
    AlreadyFrozen,
}

/// The first check of a freeze, on the locked cycle's status: a missing cycle is not found, a
/// closed one refuses, a frozen one makes the freeze a no-op, any other proceeds.
pub fn freeze_gate(status: Option<&str>) -> (r: Result<FreezeGate, FreezeError>)
    ensures
        status is None ==> r matches Err(FreezeError::NotFound),
        status matches Some(s) ==> (s@ == "closed"@ ==> r matches Err(FreezeError::Closed)),
        status matches Some(s) ==> (s@ == "frozen"@ ==> r matches Ok(FreezeGate::AlreadyFrozen)),
        status matches Some(s) ==> (s@ != "closed"@ && s@ != "frozen"@ ==> r matches Ok(
            FreezeGate::Proceed,
        )),
{
    proof {
        reveal_strlit("closed");
        reveal_strlit("frozen");
        assert("closed"@[0] != "frozen"@[0]);
    }
    match status {
        None => Err(FreezeError::NotFound),
        Some(s) => {
            if str_eq(s, "closed") {
                Err(FreezeError::Closed)
            } else if str_eq(s, "frozen") {
                Ok(FreezeGate::AlreadyFrozen)
            } else {
                Ok(FreezeGate::Proceed)
            }
        },
    }
}

/// `a` and `b` hold the same elements, regardless of order and repetition.
pub open spec fn same_elements(a: Seq<Seq<char>>, b: Seq<Seq<char>>) -> bool {
    forall|x: Seq<char>| a.contains(x) <==> b.contains(x)
}

/// What `serde_json::from_str::<Vec<String>>` gives for `text`: the array's strings, or `None`
/// when `text` is not a JSON array of strings.
pub uninterp spec fn json_string_array(text: Seq<char>) -> Option<Seq<Seq<char>>>;

/// `serde_json::from_str::<Vec<String>>`, its error dropped.
#[verifier::external_body]
fn parse_string_array(text: &str) -> (r: Option<Vec<String>>)
    ensures
        r matches Some(v) ==> json_string_array(text@) == Some(string_views(v@)),
        r is None ==> json_string_array(text@) is None,
{
    serde_json::from_str::<Vec<String>>(text).ok()
}

/// The cycle's target months without repetition; refused when the stored value did not parse
/// as a JSON array of strings, or names no month.
pub fn distinct_target_months(parsed: Option<Vec<String>>) -> (r: Result<Vec<String>, FreezeError>)
    ensures
        parsed is None ==> r matches Err(FreezeError::InvalidTargetMonths),
        parsed matches Some(v) ==> (v.len() == 0 ==> r matches Err(FreezeError::InvalidTargetMonths)),
        parsed matches Some(v) ==> (v.len() > 0 ==> (r matches Ok(d) && string_views(d@).no_duplicates()
            && same_elements(string_views(d@), string_views(v@)) && d.len() > 0)),
{
    match parsed {
        None => Err(FreezeError::InvalidTargetMonths),
        Some(v) => {
            if v.len() == 0 {
                return Err(FreezeError::InvalidTargetMonths);
            }
            let mut out: Vec<String> = Vec::new();
            let mut i: usize = 0;
            while i < v.len()
                invariant
                    i <= v.len(),
                    string_views(out@).no_duplicates(),
                    same_elements(string_views(out@), string_views(v@).take(i as int)),
                decreases v.len() - i,
            {
                let ghost before = string_views(out@);
                let ghost vi = v@[i as int]@;
                assert(string_views(v@).take(i + 1) =~= string_views(v@).take(i as int).push(vi));
                let ghost mut pushed = false;
                if !contains_text(&out, v[i].as_str()) {
                    out.push(v[i].clone());
                    proof {
                        pushed = true;
                    }
                    assert(string_views(out@) =~= before.push(vi));
                } else {
                    assert(string_views(out@) =~= before);
                    assert(before.contains(vi));
                }
                assert(pushed ==> string_views(out@) =~= before.push(vi));
                assert(!pushed ==> string_views(out@) =~= before && before.contains(vi));
                let ghost t1 = string_views(v@).take(i + 1);
                let ghost t0 = string_views(v@).take(i as int);
                let ghost now_out = string_views(out@);
                assert forall|x: Seq<char>| now_out.contains(x) <==> t1.contains(x) by {
                    assert(before.contains(x) <==> t0.contains(x));
                    if x == vi {
                        assert(t1[i as int] == vi);
                    }
                    if t1.contains(x) && x != vi {
                        let k = choose|k: int| 0 <= k < t1.len() && t1[k] == x;
                        assert(t0[k] == x);
                    }
                    if t0.contains(x) {
                        let k = choose|k: int| 0 <= k < t0.len() && t0[k] == x;
                        assert(t1[k] == x);
                    }
                    if !pushed {
                        assert(now_out =~= before);
                    } else {
                        assert(now_out[now_out.len() - 1] == vi);
                    }
                    if now_out.contains(x) && pushed && x != vi {
                        let k = choose|k: int| 0 <= k < now_out.len() && now_out[k] == x;
                        assert(before[k] == x);
                    }
                    if before.contains(x) && pushed {
                        let k = choose|k: int| 0 <= k < before.len() && before[k] == x;
                        assert(now_out[k] == x);
                    }
                }
                i = i + 1;
            }
            assert(string_views(v@).take(v.len() as int) =~= string_views(v@));
            assert(string_views(v@)[0] == v@[0]@);
            assert(string_views(v@).contains(v@[0]@));
            assert(string_views(out@).contains(v@[0]@));
            assert(out.len() > 0) by {
                if out.len() == 0 {
                    assert(!string_views(out@).contains(v@[0]@));
                }
            }
            Ok(out)
        },
    }
}

/// Parses the cycle's stored target months and drops repetitions; see `distinct_target_months`.
pub fn parse_target_months(text: &str) -> (r: Result<Vec<String>, FreezeError>)
    ensures
        json_string_array(text@) is None ==> r matches Err(FreezeError::InvalidTargetMonths),
        json_string_array(text@) matches Some(v) ==> (v.len() == 0 ==> r matches Err(
            FreezeError::InvalidTargetMonths,
        )),
        json_string_array(text@) matches Some(v) ==> (v.len() > 0 ==> (r matches Ok(d)
            && string_views(d@).no_duplicates() && same_elements(string_views(d@), v) && d.len()
            > 0)),
{
    distinct_target_months(parse_string_array(text))
}

/// Strictly ascending: every element sorts before every later one.
pub open spec fn strictly_sorted(s: Seq<Seq<char>>) -> bool {
    forall|i: int, j: int| 0 <= i < j < s.len() ==> text_lt(s[i], s[j])
}

/// Puts `m` into the ascending vector `out` at its place.
fn insert_sorted(out: &mut Vec<String>, m: String)
    requires
        strictly_sorted(string_views(old(out)@)),
        !string_views(old(out)@).contains(m@),
    ensures
        strictly_sorted(string_views(final(out)@)),
        forall|x: Seq<char>|
            string_views(final(out)@).contains(x) <==> (string_views(old(out)@).contains(x) || x
                == m@),
{
    let ghost o = string_views(out@);
    let mut p: usize = 0;
    while p < out.len() && text_less(out[p].as_str(), m.as_str())
        invariant
            p <= out.len(),
            o == string_views(out@),
            forall|j: int| 0 <= j < p ==> text_lt(o[j], m@),
        decreases out.len() - p,
    {
        p = p + 1;
    }
    proof {
        if p < out.len() {
            assert(o[p as int] != m@);
            lemma_text_lt_total(o[p as int], m@);
            assert forall|j: int| p <= j < o.len() implies text_lt(m@, o[j]) by {
                if j > p {
                    lemma_text_lt_transitive(m@, o[p as int], o[j]);
                }
            }
        }
    }
    let ghost mv = m@;
    out.insert(p, m);
    proof {
        let n = string_views(out@);
        assert(n =~= o.insert(p as int, mv));
        assert forall|i: int, j: int| 0 <= i < j < n.len() implies text_lt(n[i], n[j]) by {
            if j < p {
            } else if j == p {
            } else if i < p {
                lemma_text_lt_transitive(n[i], mv, n[j]);
            } else if i == p {
            } else {
            }
        }
        assert forall|x: Seq<char>| n.contains(x) <==> (o.contains(x) || x == mv) by {
            if n.contains(x) {
                let k = choose|k: int| 0 <= k < n.len() && n[k] == x;
                if k < p {
                    assert(o[k] == x);
                } else if k > p {
                    assert(o[k - 1] == x);
                }
            }
            if o.contains(x) {
                let k = choose|k: int| 0 <= k < o.len() && o[k] == x;
                if k < p {
                    assert(n[k] == x);
                } else {
                    assert(n[k + 1] == x);
                }
            }
            if x == mv {
                assert(n[p as int] == x);
            }
        }
    }
}

/// The coverage check of a freeze: refused as empty when the cycle has no consensus rows at
/// all, as incomplete (naming the uncovered target months in ascending order, each once) when
/// some target month has none, and accepted otherwise.
pub fn check_coverage(targets: &Vec<String>, covered: &Vec<String>) -> (r: Result<(), FreezeError>)
    ensures
        covered.len() == 0 ==> r matches Err(FreezeError::Empty),
        covered.len() > 0 ==> (r is Ok <==> forall|i: int|
            0 <= i < targets.len() ==> string_views(covered@).contains(#[trigger] targets@[i]@)),
        covered.len() > 0 ==> (r is Err ==> (r matches Err(FreezeError::Incomplete { missing_months })
            && missing_months.len() > 0 && strictly_sorted(string_views(missing_months@))
            && forall|x: Seq<char>|
            string_views(missing_months@).contains(x) <==> (string_views(targets@).contains(x)
                && !string_views(covered@).contains(x)))),
{
    if covered.len() == 0 {
        return Err(FreezeError::Empty);
    }
    let mut missing: Vec<String> = Vec::new();
    let mut i: usize = 0;
    while i < targets.len()
        invariant
            i <= targets.len(),
            strictly_sorted(string_views(missing@)),
            forall|x: Seq<char>|
                string_views(missing@).contains(x) <==> (string_views(targets@).take(
                    i as int,
                ).contains(x) && !string_views(covered@).contains(x)),
        decreases targets.len() - i,
    {
        let ghost ti = targets@[i as int]@;
        let ghost before = string_views(missing@);
        assert(string_views(targets@).take(i + 1) =~= string_views(targets@).take(i as int).push(
            ti,
        ));
        if !contains_text(covered, targets[i].as_str()) && !contains_text(
            &missing,
            targets[i].as_str(),
        ) {
            insert_sorted(&mut missing, targets[i].clone());
        }
        assert forall|x: Seq<char>|
            string_views(missing@).contains(x) <==> (string_views(targets@).take(i + 1).contains(x)
                && !string_views(covered@).contains(x)) by {
            let t1 = string_views(targets@).take(i + 1);
            let t0 = string_views(targets@).take(i as int);
            if x == ti {
                assert(t1[i as int] == ti);
            }
            if t1.contains(x) && x != ti {
                let k = choose|k: int| 0 <= k < t1.len() && t1[k] == x;
                assert(t0[k] == x);
            }
            if t0.contains(x) {
                let k = choose|k: int| 0 <= k < t0.len() && t0[k] == x;
                assert(t1[k] == x);
            }
        }
        i = i + 1;
    }
    assert(string_views(targets@).take(targets.len() as int) =~= string_views(targets@));
    if missing.len() == 0 {
        assert forall|i: int| 0 <= i < targets.len() implies string_views(covered@).contains(
            #[trigger] targets@[i]@,
        ) by {
            assert(string_views(targets@)[i] == targets@[i]@);
            if !string_views(covered@).contains(targets@[i]@) {
                assert(string_views(targets@).contains(targets@[i]@));
                assert(!string_views(missing@).contains(targets@[i]@));
            }
        }
        Ok(())
    } else {
        proof {
            let m0 = string_views(missing@)[0];
            assert(string_views(missing@).contains(m0));
            let k = choose|k: int| 0 <= k < targets.len() && string_views(targets@)[k] == m0;
            assert(targets@[k]@ == m0);
            assert(!string_views(covered@).contains(targets@[k]@));
        }
        Err(FreezeError::Incomplete { missing_months: missing })
    }
}

} // verus!
