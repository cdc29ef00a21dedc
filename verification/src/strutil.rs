//! Verified character-level string helpers.

use vstd::prelude::*;

verus! {

/// Character-by-character string equality, proved equivalent to equality of
/// the string views.
pub fn str_eq_str(a: &str, b: &str) -> (r: bool)
    ensures
        r == (a@ == b@),
{
    let n: usize = a.unicode_len();
    if n != b.unicode_len() {
        return false;
    }
    let mut i: usize = 0;
    while i < n
        invariant
            n == a@.len(),
            n == b@.len(),
            0 <= i <= n,
            forall|j: int| 0 <= j < i ==> a@[j] == b@[j],
        decreases n - i,
    {
        let ca = a.get_char(i);
        let cb = b.get_char(i);
        if ca != cb {
            return false;
        }
        i = i + 1;
    }
    proof {
        assert(a@ =~= b@);
    }
    true
}

/// Index of the first entry of `names` equal to `name`, or -1 when none is.
pub open spec fn name_index(names: Seq<Seq<char>>, name: Seq<char>) -> int
    decreases names.len(),
{
    if names.len() == 0 {
        -1
    } else if names[0] == name {
        0
    } else {
        let rest = name_index(names.drop_first(), name);
        if rest == -1 {
            -1
        } else {
            rest + 1
        }
    }
}

/// Full characterization of `name_index`: a non-negative result is the first
/// match, and -1 means there is no match at all.
pub proof fn lemma_name_index(names: Seq<Seq<char>>, name: Seq<char>)
    ensures
        -1 <= name_index(names, name) < names.len(),
        name_index(names, name) >= 0 ==> names[name_index(names, name)] == name,
        name_index(names, name) >= 0 ==> forall|j: int|
            0 <= j < name_index(names, name) ==> names[j] != name,
        name_index(names, name) == -1 ==> forall|j: int|
            0 <= j < names.len() ==> names[j] != name,
    decreases names.len(),
{
    if names.len() == 0 {
    } else if names[0] == name {
    } else {
        lemma_name_index(names.drop_first(), name);
        let rest = name_index(names.drop_first(), name);
        if rest == -1 {
            assert forall|j: int| 0 <= j < names.len() implies names[j] != name by {
                if j > 0 {
                    assert(names.drop_first()[j - 1] == names[j]);
                }
            }
        } else {
            assert(names.drop_first()[rest] == names[rest + 1]);
            assert forall|j: int| 0 <= j < rest + 1 implies names[j] != name by {
                if j > 0 {
                    assert(names.drop_first()[j - 1] == names[j]);
                }
            }
        }
    }
}

} // verus!
