//! Finding a name in a list of names: the first occurrence wins.

use vstd::prelude::*;

verus! {

/// The first position at or after `i` at which `name` stands in `names`.
pub open spec fn first_position_from(names: Seq<Seq<char>>, name: Seq<char>, i: int) -> Option<int>
    decreases names.len() - i,
{
    if i < 0 || i >= names.len() {
        None
    } else if names[i] == name {
        Some(i)
    } else {
        first_position_from(names, name, i + 1)
    }
}

/// The first position at which `name` stands in `names`.
pub open spec fn first_position(names: Seq<Seq<char>>, name: Seq<char>) -> Option<int> {
    first_position_from(names, name, 0)
}

/// `first_position_from` returns the least position that holds the name,
/// and `None` exactly when no position does.
pub proof fn lemma_first_position_from(names: Seq<Seq<char>>, name: Seq<char>, i: int)
    requires
        0 <= i,
    ensures
        match first_position_from(names, name, i) {
            Some(k) => i <= k < names.len() && names[k] == name && forall|j: int|
                i <= j < k ==> names[j] != name,
            None => forall|j: int| i <= j < names.len() ==> names[j] != name,
        },
    decreases names.len() - i,
{
    if i < names.len() && names[i] != name {
        lemma_first_position_from(names, name, i + 1);
    }
}

/// `first_position` returns the least position that holds the name, and
/// `None` exactly when no position does.
pub proof fn lemma_first_position(names: Seq<Seq<char>>, name: Seq<char>)
    ensures
        match first_position(names, name) {
            Some(k) => 0 <= k < names.len() && names[k] == name && forall|j: int|
                0 <= j < k ==> names[j] != name,
            None => forall|j: int| 0 <= j < names.len() ==> names[j] != name,
        },
{
    lemma_first_position_from(names, name, 0);
}

} // verus!
