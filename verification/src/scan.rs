//! The scan worker's argument handling: finding the classpath flag in a
//! re-executed target argument vector, splitting the colon-separated entry
//! list in order, and rendering the result lines.

use vstd::prelude::*;
use crate::text::{split_on, split_str, strs_view};

verus! {

/// The two accepted spellings of the classpath flag.
pub open spec fn is_classpath_flag(s: Seq<char>) -> bool {
    s == "-classpath"@ || s == "--class-path"@
}

/// The classpath entries of an argument vector, scanning from position `i`:
/// wherever a flag stands immediately before another argument, that
/// argument's colon-separated pieces in order; the argument consumed as a
/// classpath value is not examined as a flag itself, and a flag in final
/// position has no value to take.
pub open spec fn classpath_entries_from(args: Seq<Seq<char>>, i: nat) -> Seq<Seq<char>>
    decreases args.len() - i,
{
    if i + 1 >= args.len() {
        Seq::<Seq<char>>::empty()
    } else if is_classpath_flag(args[i as int]) {
        split_on(args[i as int + 1], ':') + classpath_entries_from(args, i + 2)
    } else {
        classpath_entries_from(args, i + 1)
    }
}

/// All classpath entries of an argument vector, in input order.
pub open spec fn classpath_entries(args: Seq<Seq<char>>) -> Seq<Seq<char>> {
    classpath_entries_from(args, 0)
}

/// Collect the classpath entries of `args`, preserving their order.
#[verifier::loop_isolation(false)]
pub fn extract_classpath(args: &Vec<String>) -> (r: Vec<String>)
    ensures
        strs_view(r@) == classpath_entries(strs_view(args@)),
{
    let flag_a = String::from_str("-classpath");
    let flag_b = String::from_str("--class-path");
    let mut r: Vec<String> = Vec::new();
    let n = args.len();
    let mut i: usize = 0;
    proof {
        assert(strs_view(r@) + classpath_entries_from(strs_view(args@), 0)
            =~= classpath_entries_from(strs_view(args@), 0));
    }
    while n - i > 1
        invariant
            n == args@.len(),
            i <= n,
            classpath_entries(strs_view(args@)) =~= strs_view(r@) + classpath_entries_from(
                strs_view(args@),
                i as nat,
            ),
        decreases n - i,
    {
        proof {
            assert(strs_view(args@)[i as int] == args@[i as int]@);
            assert(strs_view(args@)[i as int + 1] == args@[i as int + 1]@);
        }
        let here_a = args[i] == flag_a;
        let here_b = args[i] == flag_b;
        if here_a || here_b {
            let mut pieces = split_str(args[i + 1].as_str(), ':');
            let ghost rpre = r@;
            let ghost gp = pieces@;
            r.append(&mut pieces);
            proof {
                assert(strs_view(r@) =~= strs_view(rpre) + strs_view(gp));
                assert(classpath_entries_from(strs_view(args@), i as nat) == split_on(
                    strs_view(args@)[i as int + 1],
                    ':',
                ) + classpath_entries_from(strs_view(args@), (i + 2) as nat));
                assert(strs_view(rpre) + (strs_view(gp) + classpath_entries_from(
                    strs_view(args@),
                    (i + 2) as nat,
                )) =~= strs_view(r@) + classpath_entries_from(strs_view(args@), (i + 2) as nat));
            }
            i += 2;
        } else {
            proof {
                assert(!is_classpath_flag(strs_view(args@)[i as int]));
            }
            i += 1;
        }
    }
    proof {
        assert(classpath_entries_from(strs_view(args@), i as nat)
            =~= Seq::<Seq<char>>::empty());
        assert(strs_view(r@) =~= classpath_entries(strs_view(args@)));
    }
    r
}

/// The output line for one discovered product.
pub fn found_line(title: &str, version: &str) -> (r: String)
    ensures
        r@ == "FOUND: "@ + title@ + " - "@ + version@,
{
    let head = String::from_str("FOUND: ");
    let with_title = head.concat(title);
    let with_sep = with_title.concat(" - ");
    with_sep.concat(version)
}

} // verus!
