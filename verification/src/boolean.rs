//! The two boolean literals, `true` and `false`, read strictly.

use vstd::prelude::*;
use vstd::std_specs::iter::IteratorSpec;

verus! {

broadcast use vstd::string::group_string_axioms;

/// The boolean that `s` spells: only the exact texts `true` and `false` spell one.
pub open spec fn parse_bool_spec(s: Seq<char>) -> Option<bool> {
    if s == "true"@ {
        Some(true)
    } else if s == "false"@ {
        Some(false)
    } else {
        None
    }
}

/// The literal that spells `b`.
pub open spec fn bool_text(b: bool) -> Seq<char> {
    if b {
        "true"@
    } else {
        "false"@
    }
}

/// Whether two texts hold the same characters in the same order.
pub fn same_text(a: &str, b: &str) -> (r: bool)
    ensures
        r == (a@ == b@),
{
    let mut left = a.chars();
    let mut right = b.chars();
    let ghost mut seen: int = 0;
    loop
        invariant
            0 <= seen <= a@.len(),
            seen <= b@.len(),
            left.remaining() == a@.subrange(seen, a@.len() as int),
            right.remaining() == b@.subrange(seen, b@.len() as int),
            a@.subrange(0, seen) == b@.subrange(0, seen),
        decreases a@.len() - seen,
    {
        let x = left.next();
        let y = right.next();
        match x {
            None => {
                proof {
                    if y is None {
                        assert(a@ =~= a@.subrange(0, seen));
                        assert(b@ =~= b@.subrange(0, seen));
                    }
                }
                return y.is_none();
            },
            Some(p) => {
                match y {
                    None => {
                        return false;
                    },
                    Some(q) => {
                        if p != q {
                            return false;
                        }
                        proof {
                            seen = seen + 1;
                        }
                    },
                }
            },
        }
    }
}

/// Reads `s` as a boolean literal.
pub fn parse_bool(s: &str) -> (r: Option<bool>)
    ensures
        r == parse_bool_spec(s@),
{
    if same_text(s, "true") {
        Some(true)
    } else if same_text(s, "false") {
        Some(false)
    } else {
        None
    }
}

} // verus!
