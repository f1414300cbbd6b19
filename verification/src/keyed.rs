//! Tables whose rows are found by a text key.

use vstd::prelude::*;
use crate::text::str_eq;

verus! {

/// A row that is found by a text key.
pub trait Keyed {
    /// The key of the row.
    spec fn key(&self) -> Seq<char>;

    /// The key of the row.
    fn key_text(&self) -> (text: &str)
        ensures
            text@ == self.key(),
    ;
}

/// Whether some row of `rows` has the key `key`.
pub open spec fn holds_key<T: Keyed>(rows: Seq<T>, key: Seq<char>) -> bool {
    exists|i: int| 0 <= i < rows.len() && (#[trigger] rows[i]).key() == key
}

/// Whether `i` is the position of the first row with the key `key`.
pub open spec fn is_first_with_key<T: Keyed>(rows: Seq<T>, key: Seq<char>, i: int) -> bool {
    &&& 0 <= i < rows.len()
    &&& rows[i].key() == key
    &&& forall|j: int| 0 <= j < i ==> (#[trigger] rows[j]).key() != key
}

/// The position of the first row with the key `key`, where there is one.
pub open spec fn position_of<T: Keyed>(rows: Seq<T>, key: Seq<char>) -> int {
    choose|i: int| is_first_with_key(rows, key, i)
}

/// Whether no two rows of `rows` share a key.
pub open spec fn distinct_keys<T: Keyed>(rows: Seq<T>) -> bool {
    forall|i: int, j: int|
        0 <= i < j < rows.len() ==> (#[trigger] rows[i]).key() != (#[trigger] rows[j]).key()
}

/// The first position of a key is what `position_of` names.
pub proof fn lemma_position_of<T: Keyed>(rows: Seq<T>, key: Seq<char>, i: int)
    requires
        is_first_with_key(rows, key, i),
    ensures
        position_of(rows, key) == i,
        holds_key(rows, key),
{
    let chosen = position_of(rows, key);
    assert(chosen == i);
}

/// A table that holds a key has a first row with it.
pub proof fn lemma_holds_key_has_position<T: Keyed>(rows: Seq<T>, key: Seq<char>)
    requires
        holds_key(rows, key),
    ensures
        is_first_with_key(rows, key, position_of(rows, key)),
    decreases rows.len(),
{
    let witness = choose|i: int| 0 <= i < rows.len() && (#[trigger] rows[i]).key() == key;
    lemma_first_before(rows, key, witness);
}

/// Before any row with a key there is a first row with it.
proof fn lemma_first_before<T: Keyed>(rows: Seq<T>, key: Seq<char>, at: int)
    requires
        0 <= at < rows.len(),
        rows[at].key() == key,
    ensures
        exists|i: int| is_first_with_key(rows, key, i),
    decreases at,
{
    if exists|j: int| 0 <= j < at && (#[trigger] rows[j]).key() == key {
        let j = choose|j: int| 0 <= j < at && (#[trigger] rows[j]).key() == key;
        lemma_first_before(rows, key, j);
    } else {
        assert(is_first_with_key(rows, key, at));
    }
}

/// Looks for the first row with the key `key`.
pub fn find_row<T: Keyed>(rows: &Vec<T>, key: &str) -> (found: Option<usize>)
    ensures
        found is Some <==> holds_key(rows@, key@),
        found is Some ==> is_first_with_key(rows@, key@, found.unwrap() as int),
        found is Some ==> found.unwrap() == position_of(rows@, key@),
{
    let mut i: usize = 0;
    while i < rows.len()
        invariant
            i <= rows.len(),
            forall|j: int| 0 <= j < i ==> (#[trigger] rows@[j]).key() != key@,
        decreases rows.len() - i,
    {
        if str_eq(rows[i].key_text(), key) {
            return Some(i);
        }
        i += 1;
    }
    None
}

} // verus!
