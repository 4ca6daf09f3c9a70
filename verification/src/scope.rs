use vstd::prelude::*;

use crate::config::Privilege;

verus! {

/// The view of an optional string: the character sequence it holds, if
/// any.
pub open spec fn view_opt(s: Option<String>) -> Option<Seq<char>> {
    match s {
        Some(x) => Some(x@),
        None => None,
    }
}

/// What scope classification yields: SYSTEM when the scope variable is
/// set and equal to the resolved executable name, UNSPEC otherwise.
pub open spec fn spec_classify_scope(scope: Option<Seq<char>>, name: Seq<char>) -> Privilege {
    match scope {
        Some(s) => if s == name {
            Privilege::SYSTEM
        } else {
            Privilege::UNSPEC
        },
        None => Privilege::UNSPEC,
    }
}

/// The base name of a path string: what follows the last separator,
/// or the whole string when it holds none. A path that ends in a
/// separator has an empty base name.
pub open spec fn spec_base_name(s: Seq<char>) -> Seq<char>
    decreases s.len(),
{
    if s.len() == 0 {
        s
    } else if s.last() == '/' {
        Seq::empty()
    } else {
        spec_base_name(s.drop_last()).push(s.last())
    }
}

/// A stretch of non-separator characters that reaches the end of the
/// string, and starts either at the beginning or right after a
/// separator, is the base name.
proof fn lemma_base_name_subrange(s: Seq<char>, start: int)
    requires
        0 <= start <= s.len(),
        forall|j: int| start <= j < s.len() ==> s[j] != '/',
        start > 0 ==> s[start - 1] == '/',
    ensures
        spec_base_name(s) == s.subrange(start, s.len() as int),
    decreases s.len(),
{
    if s.len() == 0 {
        assert(spec_base_name(s) =~= s.subrange(0, 0));
    } else if start == s.len() {
        assert(spec_base_name(s) =~= s.subrange(start, s.len() as int));
    } else {
        lemma_base_name_subrange(s.drop_last(), start);
        assert(spec_base_name(s) == spec_base_name(s.drop_last()).push(s.last()));
        assert(spec_base_name(s) =~= s.subrange(start, s.len() as int));
    }
}

/// Extracts the base name of a path: the component after the last
/// separator. The caller decides what an empty result stands in for;
/// a canonicalized path yields an empty base name only at the root.
pub fn base_name(path: &str) -> (r: String)
    ensures
        r@ == spec_base_name(path@),
{
    let n = path.unicode_len();
    let mut start: usize = n;
    while start > 0
        invariant
            start <= n,
            n == path@.len(),
            forall|j: int| start <= j < n ==> path@[j] != '/',
        decreases start,
    {
        if path.get_char(start - 1) == '/' {
            proof {
                lemma_base_name_subrange(path@, start as int);
            }
            let tail = path.substring_char(start, n);
            return String::from_str(tail);
        }
        start = start - 1;
    }
    proof {
        lemma_base_name_subrange(path@, 0);
    }
    let tail = path.substring_char(0, n);
    String::from_str(tail)
}

/// Classifies the invocation from the systemd scope variable (`None`
/// when unset) and the resolved executable base name.
///
/// The scope value is compared against that one name only, so this
/// classification never yields USER; telling USER apart from SYSTEM
/// would take a comparison against a second, user-specific alias,
/// which is left as an open question rather than invented here.
pub fn classify_scope(scope: Option<String>, name: &String) -> (r: Privilege)
    ensures
        r == spec_classify_scope(view_opt(scope), name@),
        r != Privilege::USER,
{
    match scope {
        Some(s) => {
            if s == *name {
                Privilege::SYSTEM
            } else {
                Privilege::UNSPEC
            }
        },
        None => Privilege::UNSPEC,
    }
}

} // verus!
