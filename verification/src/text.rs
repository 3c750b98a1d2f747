//! Verified text helpers: menu-id comparison and the diagnostic line.

use vstd::prelude::*;

verus! {

/// Character-wise string equality: true exactly when the two views agree.
///
/// Menu events carry their id as a string; dispatching on it needs an
/// equality whose meaning is pinned to the views.
pub fn str_eq(a: &str, b: &str) -> (r: bool)
    ensures
        r == (a@ == b@),
{
    let a_len = a.unicode_len();
    let b_len = b.unicode_len();
    if a_len != b_len {
        return false;
    }
    let mut i: usize = 0;
    while i < a_len
        invariant
            i <= a_len,
            a_len == a@.len(),
            b_len == b@.len(),
            a_len == b_len,
            forall|j: int| 0 <= j < i ==> a@[j] == b@[j],
        decreases a_len - i,
    {
        if a.get_char(i) != b.get_char(i) {
            return false;
        }
        i = i + 1;
    }
    proof {
        assert(a@ =~= b@);
    }
    true
}

/// The one diagnostic format of the coordinator: `[Glimt] <context>: <detail>`.
///
/// Every failed window command is reported through this line and nothing
/// else; the host writes it to its error stream.
pub fn diagnostic_line(context: &str, detail: &str) -> (line: String)
    ensures
        line@ == "[Glimt] "@ + context@ + ": "@ + detail@,
{
    let mut line = String::from_str("[Glimt] ");
    line.append(context);
    line.append(": ");
    line.append(detail);
    line
}

} // verus!
