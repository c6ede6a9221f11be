//! The first element of a sequence that satisfies a predicate.
use vstd::prelude::*;

verus! {

/// Index of the first element of `s` that satisfies `p`, or -1 when none
/// does.
pub open spec fn first_match<T>(s: Seq<T>, p: spec_fn(T) -> bool) -> int
    decreases s.len(),
{
    if s.len() == 0 {
        -1
    } else if p(s[0]) {
        0
    } else {
        let r = first_match(s.drop_first(), p);
        if r < 0 {
            -1
        } else {
            r + 1
        }
    }
}

/// When no element before `i` satisfies `p`, and `i` is the end or an
/// element that satisfies `p`, the first match is at `i` (or there is none).
pub proof fn lemma_first_match_at<T>(s: Seq<T>, p: spec_fn(T) -> bool, i: int)
    requires
        0 <= i <= s.len(),
        forall|j: int| 0 <= j < i ==> !p(#[trigger] s[j]),
        i == s.len() || p(s[i]),
    ensures
        first_match(s, p) == if i == s.len() {
            -1
        } else {
            i
        },
    decreases i,
{
    if s.len() == 0 {
    } else if i == 0 {
    } else {
        let t = s.drop_first();
        assert forall|j: int| 0 <= j < i - 1 implies !p(#[trigger] t[j]) by {
            assert(t[j] == s[j + 1]);
        }
        if i < s.len() {
            assert(t[i - 1] == s[i]);
        }
        assert(!p(s[0]));
        lemma_first_match_at(t, p, i - 1);
    }
}

/// The first match, when there is one, satisfies `p` and nothing before it
/// does; when there is none, nothing does.
pub proof fn lemma_first_match_meaning<T>(s: Seq<T>, p: spec_fn(T) -> bool)
    ensures
        -1 <= first_match(s, p) < s.len(),
        first_match(s, p) >= 0 ==> p(s[first_match(s, p)]),
        forall|j: int| 0 <= j < s.len() && (first_match(s, p) < 0 || j < first_match(s, p)) ==> !p(
            #[trigger] s[j],
        ),
    decreases s.len(),
{
    if s.len() > 0 && !p(s[0]) {
        let t = s.drop_first();
        lemma_first_match_meaning(t, p);
        assert forall|j: int| 0 <= j < s.len() && (first_match(s, p) < 0 || j < first_match(s, p))
            implies !p(#[trigger] s[j]) by {
            if j > 0 {
                assert(s[j] == t[j - 1]);
            }
        }
        if first_match(s, p) >= 0 {
            assert(s[first_match(s, p)] == t[first_match(t, p)]);
        }
    }
}

} // verus!
