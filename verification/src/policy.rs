//! The skip policy: paths under well-known pseudo-filesystems are neither
//! traversed nor hashed.

use vstd::prelude::*;

verus! {

/// `p` is an initial segment of `s`.
pub open spec fn is_prefix_of(p: Seq<char>, s: Seq<char>) -> bool {
    p.len() <= s.len() && s.subrange(0, p.len() as int) == p
}

/// A path is scanned unless it lies under one of the excluded
/// pseudo-filesystem prefixes.
pub open spec fn spec_should_scan(path: Seq<char>) -> bool {
    &&& !is_prefix_of("/dev/"@, path)
    &&& !is_prefix_of("/proc/"@, path)
    &&& !is_prefix_of("/sys/"@, path)
}

/// A path under an excluded prefix is never scanned.
pub proof fn lemma_excluded_prefix_never_scanned(path: Seq<char>)
    requires
        is_prefix_of("/dev/"@, path) || is_prefix_of("/proc/"@, path) || is_prefix_of(
            "/sys/"@,
            path,
        ),
    ensures
        !spec_should_scan(path),
{
}

fn starts_with(s: &str, prefix: &str) -> (r: bool)
    ensures
        r == is_prefix_of(prefix@, s@),
{
    let n = prefix.unicode_len();
    let m = s.unicode_len();
    if n > m {
        return false;
    }
    let mut i: usize = 0;
    while i < n
        invariant
            i <= n <= m,
            n == prefix@.len(),
            m == s@.len(),
            forall|j: int| 0 <= j < i ==> s@[j] == prefix@[j],
        decreases n - i,
    {
        if s.get_char(i) != prefix.get_char(i) {
            proof {
                assert(s@.subrange(0, n as int)[i as int] != prefix@[i as int]);
            }
            return false;
        }
        i += 1;
    }
    proof {
        assert(s@.subrange(0, n as int) =~= prefix@);
    }
    true
}

/// Decides whether a path takes part in the scan at all: paths under the
/// device, process and kernel-parameter pseudo-filesystems are skipped
/// outright.
pub fn should_scan(path: &str) -> (r: bool)
    ensures
        r == spec_should_scan(path@),
{
    !(starts_with(path, "/dev/") || starts_with(path, "/proc/") || starts_with(path, "/sys/"))
}

} // verus!
