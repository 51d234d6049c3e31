//! The kernel-flag stage: each line of the (pre-filtered) feature
//! introspection output must say that its flag is enabled.  Lines that do
//! not are collected and reported.

use vstd::prelude::*;

use crate::errors::StageError;
use crate::text::contains_seq;
use crate::text::contains_sub;
use crate::text::trim;
use crate::text::trim_seq;

verus! {

/// The marker a feature line carries when its flag is enabled.
pub open spec fn enabled_marker() -> Seq<char> {
    "is set to y"@
}

/// The line, once trimmed, says its flag is enabled.
pub open spec fn flag_satisfied(line: Seq<char>) -> bool {
    contains_seq(trim_seq(line), enabled_marker())
}

/// The unsatisfied lines among `lines`, in order.
pub open spec fn unsat_of(lines: Seq<Seq<char>>) -> Seq<Seq<char>>
    decreases lines.len(),
{
    if lines.len() == 0 {
        Seq::empty()
    } else {
        let rest = unsat_of(lines.drop_last());
        if flag_satisfied(lines.last()) {
            rest
        } else {
            rest.push(lines.last())
        }
    }
}

/// The kernel-flag stage: succeeds exactly when every line says its flag
/// is enabled, and fails with `MissingKernelFlags` carrying the
/// unsatisfied lines otherwise.
pub fn check_bpf_enabled(flags: &Vec<String>) -> (r: Result<(), StageError>)
    ensures
        r is Ok <==> unsat_of(flags.deep_view()).len() == 0,
        r matches Err(e) ==> e matches StageError::MissingKernelFlags { lines }
            && lines.deep_view() == unsat_of(flags.deep_view()),
{
    let n = flags.len();
    let mut missing: Vec<String> = Vec::new();
    let mut i: usize = 0;
    while i < n
        invariant
            i <= n,
            n == flags.len(),
            missing.deep_view() == unsat_of(flags.deep_view().take(i as int)),
        decreases n - i,
    {
        proof {
            assert(flags.deep_view().take(i + 1).drop_last() =~= flags.deep_view().take(i as int));
            assert(flags.deep_view().take(i + 1).last() == flags.deep_view()[i as int]);
            assert(flags.deep_view()[i as int] == flags@[i as int]@);
        }
        if !contains_sub(trim(flags[i].as_str()), "is set to y") {
            missing.push(flags[i].clone());
            proof {
                assert(missing.deep_view() =~= unsat_of(flags.deep_view().take(i + 1)));
            }
        } else {
            proof {
                assert(missing.deep_view() =~= unsat_of(flags.deep_view().take(i + 1)));
            }
        }
        i += 1;
    }
    proof {
        assert(flags.deep_view().take(n as int) =~= flags.deep_view());
    }
    if missing.len() == 0 {
        Ok(())
    } else {
        Err(StageError::MissingKernelFlags { lines: missing })
    }
}

} // verus!
