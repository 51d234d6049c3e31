//! Interpretation of interactive console answers.  The decision (is this
//! answer a yes?) lives here, verified; reading the line of input is the
//! caller's business.

use vstd::prelude::*;
use vstd::string::StrSliceExecFns;

use crate::text::trim;
use crate::text::trim_seq;

verus! {

/// An affirmative answer: empty (default yes) or `y` / `yes` in any
/// letter case, once surrounding whitespace is trimmed.  Anything else
/// declines.
pub open spec fn affirmative(answer: Seq<char>) -> bool {
    let t = trim_seq(answer);
    ||| t.len() == 0
    ||| (t.len() == 1 && (t[0] == 'y' || t[0] == 'Y'))
    ||| (t.len() == 3 && (t[0] == 'y' || t[0] == 'Y') && (t[1] == 'e' || t[1] == 'E') && (
    t[2] == 's' || t[2] == 'S'))
}

/// Whether a console answer counts as a yes.
pub fn answer_affirmative(answer: &str) -> (r: bool)
    ensures
        r == affirmative(answer@),
{
    let t = trim(answer);
    let n = t.unicode_len();
    if n == 0 {
        true
    } else if n == 1 {
        let c = t.get_char(0);
        c == 'y' || c == 'Y'
    } else if n == 3 {
        let c0 = t.get_char(0);
        let c1 = t.get_char(1);
        let c2 = t.get_char(2);
        (c0 == 'y' || c0 == 'Y') && (c1 == 'e' || c1 == 'E') && (c2 == 's' || c2 == 'S')
    } else {
        false
    }
}

} // verus!
