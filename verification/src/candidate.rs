//! Observed processes and the filter that decides which of them are
//! forwarded to the launcher: only those whose first argument mentions
//! "java", and none at all unless the capability guard passed.

use vstd::prelude::*;
use crate::text::{contains_seq, str_contains};

verus! {

/// One observed process: produced once per snapshot entry, launched at most
/// once, then discarded.
pub struct Candidate {
    pub pid: u32,
    pub owner_uid: u32,
    pub argv: Vec<String>,
}

/// Whether the first of `strings` contains `search`; an empty vector never
/// matches.
pub open spec fn first_matches(strings: Seq<String>, search: Seq<char>) -> bool {
    strings.len() > 0 && contains_seq(strings[0]@, search)
}

/// Test whether the first string contains `search`. Empty input never
/// matches.
pub fn match_first(strings: &[String], search: &str) -> (r: bool)
    ensures
        r == first_matches(strings@, search@),
{
    if strings.len() == 0 {
        false
    } else {
        str_contains(strings[0].as_str(), search)
    }
}

/// The filter: a candidate is of interest exactly when its first argument
/// mentions "java".
pub open spec fn is_java_candidate(c: Candidate) -> bool {
    first_matches(c.argv@, "java"@)
}

/// The per-candidate decision of the discovery loop.
pub fn should_launch(c: &Candidate) -> (r: bool)
    ensures
        r == is_java_candidate(*c),
{
    match_first(c.argv.as_slice(), "java")
}

/// Those of `procs` the filter selects, in input order.
pub open spec fn spec_selected(procs: Seq<Candidate>) -> Seq<Candidate>
    decreases procs.len(),
{
    if procs.len() == 0 {
        Seq::<Candidate>::empty()
    } else {
        let rest = spec_selected(procs.drop_first());
        if is_java_candidate(procs[0]) {
            seq![procs[0]] + rest
        } else {
            rest
        }
    }
}

/// The launches one run will attempt: none at all unless the capability
/// guard passed, else exactly the selected candidates in input order.
pub open spec fn spec_launch_plan(guard_ok: bool, procs: Seq<Candidate>) -> Seq<Candidate> {
    if guard_ok {
        spec_selected(procs)
    } else {
        Seq::<Candidate>::empty()
    }
}

/// Decide the whole run's launches from the guard verdict and the snapshot.
#[verifier::loop_isolation(false)]
pub fn plan_launches(guard_ok: bool, procs: Vec<Candidate>) -> (r: Vec<Candidate>)
    ensures
        r@ == spec_launch_plan(guard_ok, procs@),
{
    let ghost orig = procs@;
    let mut rest = procs;
    let mut r: Vec<Candidate> = Vec::new();
    if !guard_ok {
        proof {
            assert(r@ =~= spec_launch_plan(false, orig));
        }
        return r;
    }
    while rest.len() > 0
        invariant
            spec_selected(orig) =~= r@ + spec_selected(rest@),
        decreases rest@.len(),
    {
        let ghost pre = rest@;
        let c = rest.remove(0);
        proof {
            assert(pre.drop_first() =~= rest@);
        }
        let ghost gc = c;
        if should_launch(&c) {
            r.push(c);
            proof {
                assert(spec_selected(pre) =~= seq![gc] + spec_selected(rest@));
                assert(r@.drop_last() + (seq![gc] + spec_selected(rest@)) =~= r@ + spec_selected(
                    rest@,
                ));
            }
        } else {
            proof {
                assert(spec_selected(pre) =~= spec_selected(rest@));
            }
        }
    }
    proof {
        assert(spec_selected(rest@) =~= Seq::<Candidate>::empty());
        assert(r@ =~= spec_launch_plan(guard_ok, orig));
    }
    r
}

/// Nothing but matching candidates is ever forwarded to the launcher: every
/// entry of any launch plan passes the filter, so a process whose first
/// argument does not mention "java" — in particular one with an empty
/// argument vector — is never launched.
pub proof fn lemma_only_java_forwarded(guard_ok: bool, procs: Seq<Candidate>)
    ensures
        forall|j: int|
            0 <= j < spec_launch_plan(guard_ok, procs).len() ==> is_java_candidate(
                #[trigger] spec_launch_plan(guard_ok, procs)[j],
            ),
    decreases procs.len(),
{
    if guard_ok && procs.len() > 0 {
        lemma_only_java_forwarded(guard_ok, procs.drop_first());
        let rest = spec_selected(procs.drop_first());
        if is_java_candidate(procs[0]) {
            assert(spec_selected(procs) == seq![procs[0]] + rest);
            assert forall|j: int| 0 <= j < spec_selected(procs).len() implies is_java_candidate(
                #[trigger] spec_selected(procs)[j],
            ) by {
                if j > 0 {
                    assert(spec_selected(procs)[j] == rest[j - 1]);
                    assert(rest[j - 1] == spec_launch_plan(guard_ok, procs.drop_first())[j - 1]);
                }
            }
        } else {
            assert(spec_selected(procs) == rest);
        }
    }
}

/// A capability-guard failure prevents every fork: without a passed guard
/// the launch plan is empty, whatever was observed.
pub proof fn lemma_guard_failure_spawns_nothing(procs: Seq<Candidate>)
    ensures
        spec_launch_plan(false, procs).len() == 0,
{
}

} // verus!
