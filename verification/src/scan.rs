//! Searching the rows of a table.

use vstd::prelude::*;

verus! {

/// Some row of `rows` satisfies `p`.
pub open spec fn any<T>(rows: Seq<T>, p: spec_fn(T) -> bool) -> bool {
    exists|i: int| 0 <= i < rows.len() && p(#[trigger] rows[i])
}

/// At most one row of `rows` satisfies `p`.
pub open spec fn at_most_one<T>(rows: Seq<T>, p: spec_fn(T) -> bool) -> bool {
    forall|i: int, j: int|
        0 <= i < rows.len() && 0 <= j < rows.len() && p(#[trigger] rows[i]) && p(
            #[trigger] rows[j],
        ) ==> i == j
}

/// The row of `rows` that satisfies `p`, if there is one.
pub open spec fn lookup<T>(rows: Seq<T>, p: spec_fn(T) -> bool) -> Option<T> {
    if any(rows, p) {
        Some(rows[choose|i: int| 0 <= i < rows.len() && p(#[trigger] rows[i])])
    } else {
        None
    }
}

/// No two rows of `rows` are related by `same`.
pub open spec fn distinct<T>(rows: Seq<T>, same: spec_fn(T, T) -> bool) -> bool {
    forall|i: int, j: int|
        0 <= i < j < rows.len() ==> !same(#[trigger] rows[i], #[trigger] rows[j])
}

/// Tells whether some row satisfies `test`, which decides `p`.
pub(crate) fn any_row<T, F: Fn(&T) -> bool>(
    rows: &Vec<T>,
    test: F,
    Ghost(p): Ghost<spec_fn(T) -> bool>,
) -> (found: bool)
    requires
        forall|row: &T| #[trigger] test.requires((row,)),
        forall|row: &T, b: bool| #[trigger] test.ensures((row,), b) ==> b == p(*row),
    ensures
        found == any(rows@, p),
{
    let mut i: usize = 0;
    while i < rows.len()
        invariant
            i <= rows.len(),
            forall|row: &T| #[trigger] test.requires((row,)),
            forall|row: &T, b: bool| #[trigger] test.ensures((row,), b) ==> b == p(*row),
            forall|j: int| 0 <= j < i ==> !p(#[trigger] rows@[j]),
        decreases rows.len() - i,
    {
        if test(&rows[i]) {
            assert(p(rows@[i as int]));
            return true;
        }
        i += 1;
    }
    false
}

/// Finds the row that satisfies `test`, which decides `p`.
pub(crate) fn find_row<T, F: Fn(&T) -> bool>(
    rows: &Vec<T>,
    test: F,
    Ghost(p): Ghost<spec_fn(T) -> bool>,
) -> (found: Option<&T>)
    requires
        forall|row: &T| #[trigger] test.requires((row,)),
        forall|row: &T, b: bool| #[trigger] test.ensures((row,), b) ==> b == p(*row),
        at_most_one(rows@, p),
    ensures
        lookup(rows@, p) == (match found {
            Some(row) => Some(*row),
            None => None,
        }),
{
    let mut i: usize = 0;
    while i < rows.len()
        invariant
            i <= rows.len(),
            forall|row: &T| #[trigger] test.requires((row,)),
            forall|row: &T, b: bool| #[trigger] test.ensures((row,), b) ==> b == p(*row),
            at_most_one(rows@, p),
            forall|j: int| 0 <= j < i ==> !p(#[trigger] rows@[j]),
        decreases rows.len() - i,
    {
        if test(&rows[i]) {
            assert(p(rows@[i as int]));
            return Some(&rows[i]);
        }
        i += 1;
    }
    None
}

/// Tells whether no two rows are related by `same`, which decides `p`.
pub(crate) fn all_distinct<T, F: Fn(&T, &T) -> bool>(
    rows: &Vec<T>,
    same: F,
    Ghost(p): Ghost<spec_fn(T, T) -> bool>,
) -> (unique: bool)
    requires
        forall|a: &T, b: &T| #[trigger] same.requires((a, b)),
        forall|a: &T, b: &T, r: bool| #[trigger] same.ensures((a, b), r) ==> r == p(*a, *b),
    ensures
        unique == distinct(rows@, p),
{
    let mut j: usize = 0;
    while j < rows.len()
        invariant
            j <= rows.len(),
            forall|a: &T, b: &T| #[trigger] same.requires((a, b)),
            forall|a: &T, b: &T, r: bool| #[trigger] same.ensures((a, b), r) ==> r == p(*a, *b),
            forall|x: int, y: int| 0 <= x < y < j ==> !p(#[trigger] rows@[x], #[trigger] rows@[y]),
        decreases rows.len() - j,
    {
        let mut i: usize = 0;
        while i < j
            invariant
                i <= j < rows.len(),
                forall|a: &T, b: &T| #[trigger] same.requires((a, b)),
                forall|a: &T, b: &T, r: bool| #[trigger]
                    same.ensures((a, b), r) ==> r == p(*a, *b),
                forall|x: int| 0 <= x < i ==> !p(#[trigger] rows@[x], rows@[j as int]),
            decreases j - i,
        {
            if same(&rows[i], &rows[j]) {
                assert(p(rows@[i as int], rows@[j as int]));
                return false;
            }
            i += 1;
        }
        j += 1;
    }
    true
}

} // verus!
