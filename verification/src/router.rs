//! Request routing: pick retrieval or generation mode from the path shape.

use vstd::prelude::*;

verus! {

/// The fixed path prefix that selects retrieval mode.
pub open spec fn fetch_prefix() -> Seq<char> {
    "/plan-my-trip/"@
}

/// Routing decision over a path: `Some(tag)` when the path starts with the
/// fetch prefix (the remainder is the tag, passed through unmodified),
/// `None` when generation mode is selected directly.
pub open spec fn route_of(path: Seq<char>) -> Option<Seq<char>> {
    if path.len() >= fetch_prefix().len() && path.subrange(
        0,
        fetch_prefix().len() as int,
    ) == fetch_prefix() {
        Some(path.skip(fetch_prefix().len() as int))
    } else {
        None
    }
}

/// If the path begins with the fetch prefix, return the remainder of the
/// path as the tag; no further validation or length check is applied.
pub fn extract_tag<'a>(path: &'a str) -> (r: Option<&'a str>)
    ensures
        match r {
            Some(t) => route_of(path@) == Some(t@),
            None => route_of(path@) is None,
        },
{
    let prefix = "/plan-my-trip/";
    proof {
        reveal_strlit("/plan-my-trip/");
    }
    let prefix_len: usize = prefix.unicode_len();
    let path_len: usize = path.unicode_len();
    if path_len < prefix_len {
        return None;
    }
    let mut i: usize = 0;
    while i < prefix_len
        invariant
            i <= prefix_len,
            prefix_len == fetch_prefix().len(),
            path_len == path@.len(),
            prefix_len <= path_len,
            prefix@ == fetch_prefix(),
            forall|j: int| 0 <= j < i ==> path@[j] == fetch_prefix()[j],
        decreases prefix_len - i,
    {
        if path.get_char(i) != prefix.get_char(i) {
            proof {
                assert(path@[i as int] != fetch_prefix()[i as int]);
                assert(path@.subrange(0, fetch_prefix().len() as int)[i as int] == path@[i as int]);
            }
            return None;
        }
        i = i + 1;
    }
    let tag = path.substring_char(prefix_len, path_len);
    proof {
        assert(path@.subrange(0, fetch_prefix().len() as int) =~= fetch_prefix());
        assert(tag@ =~= path@.skip(fetch_prefix().len() as int));
    }
    Some(tag)
}

} // verus!
