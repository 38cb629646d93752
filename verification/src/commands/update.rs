//! `sessioncast update`: comparing versions.
use crate::text::chars_of;
use crate::config::same_chars;
use vstd::prelude::*;

verus! {

/// `s` without leading `v`s (`str::trim_start_matches('v')`).
pub open spec fn without_v(s: Seq<char>) -> Seq<char>
    decreases s.len(),
{
    if s.len() > 0 && s[0] == 'v' {
        without_v(s.drop_first())
    } else {
        s
    }
}

/// Whether the latest release tag names the running version (a leading
/// `v` in the tag is ignored).
pub fn is_current_version(latest_tag: &str, current_version: &str) -> (b: bool)
    ensures
        b == (without_v(latest_tag@) == current_version@),
{
    let t = chars_of(latest_tag);
    let n = t.len();
    let mut i: usize = 0;
    assert(t@.skip(0) =~= t@);
    while i < n && t[i] == 'v'
        invariant
            n == t@.len(),
            t@ == latest_tag@,
            i <= n,
            without_v(t@) == without_v(t@.skip(i as int)),
        decreases n - i,
    {
        assert(t@.skip(i as int).drop_first() =~= t@.skip(i + 1));
        i = i + 1;
    }
    let mut rest: Vec<char> = Vec::new();
    let mut k: usize = i;
    while k < n
        invariant
            n == t@.len(),
            i <= k <= n,
            rest@ == t@.subrange(i as int, k as int),
        decreases n - k,
    {
        rest.push(t[k]);
        assert(t@.subrange(i as int, k + 1) =~= t@.subrange(i as int, k as int).push(t@[k as int]));
        k = k + 1;
    }
    assert(rest@ =~= t@.skip(i as int));
    same_chars(&rest, &chars_of(current_version))
}

} // verus!
