//! Exempt paths: request paths that bypass authentication and are
//! always forwarded to the upstream.

use vstd::prelude::*;

verus! {

/// Whether `path` stands on the exemption list, compared exactly.
pub open spec fn path_is_exception(path: Seq<char>, exceptions: Seq<Seq<char>>) -> bool {
    exists|i: int| 0 <= i < exceptions.len() && exceptions[i] == path
}

/// Whether the request path is on the configured exemption list and
/// so bypasses authentication.
pub fn is_exception(path: &str, exceptions: &Vec<String>) -> (r: bool)
    ensures
        r == path_is_exception(path@, exceptions.deep_view()),
{
    let p = path.to_owned();
    let n = exceptions.len();
    let mut i: usize = 0;
    while i < n
        invariant
            i <= n,
            n == exceptions.len(),
            p@ == path@,
            forall|j: int| 0 <= j < i ==> exceptions.deep_view()[j] != path@,
        decreases n - i,
    {
        if exceptions[i] == p {
            proof {
                assert(exceptions.deep_view()[i as int] == path@);
            }
            return true;
        }
        i += 1;
    }
    false
}

} // verus!
