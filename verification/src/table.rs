//! The table of persons as a mathematical value: a sequence of rows in the order in which they
//! were inserted, and what each statement against the table means on that sequence.

use vstd::prelude::*;
use crate::models::PersonView;

verus! {

/// No two rows carry the same identifier.
pub open spec fn distinct_ids(rows: Seq<PersonView>) -> bool {
    forall|i: int, j: int|
        0 <= i < j < rows.len() ==> (#[trigger] rows[i]).id != (#[trigger] rows[j]).id
}

/// Some row carries the identifier `id`.
pub open spec fn has_id(rows: Seq<PersonView>, id: int) -> bool {
    exists|i: int| 0 <= i < rows.len() && (#[trigger] rows[i]).id == id
}

/// The index of a row that carries `id`, where there is one.
pub open spec fn position(rows: Seq<PersonView>, id: int) -> int {
    choose|i: int| 0 <= i < rows.len() && (#[trigger] rows[i]).id == id
}

/// The row that carries `id`, or `None` where no row does.
pub open spec fn lookup(rows: Seq<PersonView>, id: int) -> Option<PersonView> {
    if has_id(rows, id) {
        Some(rows[position(rows, id)])
    } else {
        None
    }
}

/// The greatest identifier in the table, or `None` for the empty table.
pub open spec fn max_id(rows: Seq<PersonView>) -> Option<int>
    decreases rows.len(),
{
    if rows.len() == 0 {
        None
    } else {
        let last = rows.last().id;
        match max_id(rows.drop_last()) {
            Some(m) => if m >= last { Some(m) } else { Some(last) },
            None => Some(last),
        }
    }
}

/// The identifier that the next created person gets: one more than the greatest, or 1 for the
/// empty table.
pub open spec fn next_id_after(max: Option<int>) -> int {
    match max {
        Some(m) => m + 1,
        None => 1,
    }
}

/// The table after a person named `name` was created in it.
pub open spec fn created(rows: Seq<PersonView>, name: Seq<char>) -> Seq<PersonView> {
    rows.push(PersonView { id: next_id_after(max_id(rows)), name })
}

/// The table after every row that carries `id` was given the name `name`.
pub open spec fn renamed(rows: Seq<PersonView>, id: int, name: Seq<char>) -> Seq<PersonView> {
    Seq::new(
        rows.len(),
        |i: int| if rows[i].id == id { PersonView { id, name } } else { rows[i] },
    )
}

/// The table after every row that carries `id` was deleted: the other rows, in their order.
pub open spec fn without(rows: Seq<PersonView>, id: int) -> Seq<PersonView> {
    rows.filter(|row: PersonView| row.id != id)
}

/// In a table with distinct identifiers, looking up the identifier of the row at `i` gives
/// that row.
pub proof fn lemma_lookup_at(rows: Seq<PersonView>, i: int)
    requires
        distinct_ids(rows),
        0 <= i < rows.len(),
    ensures
        has_id(rows, rows[i].id),
        position(rows, rows[i].id) == i,
        lookup(rows, rows[i].id) == Some(rows[i]),
{
    let id = rows[i].id;
    assert(has_id(rows, id));
    let j = position(rows, id);
    assert(0 <= j < rows.len() && rows[j].id == id);
    if j != i {
        if j < i {
            assert(rows[j].id != rows[i].id);
        } else {
            assert(rows[i].id != rows[j].id);
        }
    }
}

/// `max_id` is `None` exactly for the empty table; otherwise it is the identifier of some row
/// and no row has a greater one.
pub proof fn lemma_max_id_is_greatest(rows: Seq<PersonView>)
    ensures
        max_id(rows) is None <==> rows.len() == 0,
        max_id(rows) matches Some(m) ==> has_id(rows, m) && forall|i: int|
            0 <= i < rows.len() ==> (#[trigger] rows[i]).id <= m,
    decreases rows.len(),
{
    if rows.len() > 0 {
        let front = rows.drop_last();
        lemma_max_id_is_greatest(front);
        let m = max_id(rows)->Some_0;
        let n = rows.len() - 1;
        match max_id(front) {
            Some(f) => {
                let k = choose|k: int| 0 <= k < front.len() && (#[trigger] front[k]).id == f;
                assert(rows[k] == front[k]);
                if f >= rows.last().id {
                    assert(rows[k].id == m);
                } else {
                    assert(rows[n].id == m);
                }
                assert forall|i: int| 0 <= i < rows.len() implies (#[trigger] rows[i]).id <= m by {
                    if i < n {
                        assert(rows[i] == front[i]);
                    }
                }
            },
            None => {
                assert(rows[n].id == m);
            },
        }
    }
}

/// Filtering a table by a condition that every row meets leaves it as it is.
proof fn lemma_filter_keeps_all(rows: Seq<PersonView>, keep: spec_fn(PersonView) -> bool)
    requires
        forall|i: int| 0 <= i < rows.len() ==> keep(#[trigger] rows[i]),
    ensures
        rows.filter(keep) == rows,
    decreases rows.len(),
{
    reveal(Seq::filter);
    if rows.len() > 0 {
        let front = rows.drop_last();
        assert forall|i: int| 0 <= i < front.len() implies keep(#[trigger] front[i]) by {
            assert(front[i] == rows[i]);
        }
        lemma_filter_keeps_all(front, keep);
        assert(front.push(rows.last()) =~= rows);
    }
}

/// Deleting an identifier that no row carries leaves the table as it is.
pub proof fn lemma_without_absent(rows: Seq<PersonView>, id: int)
    requires
        !has_id(rows, id),
    ensures
        without(rows, id) == rows,
{
    lemma_filter_keeps_all(rows, |row: PersonView| row.id != id);
}

/// In a table with distinct identifiers, deleting the identifier of the row at `i` removes
/// that row and no other.
pub proof fn lemma_without_at(rows: Seq<PersonView>, i: int)
    requires
        distinct_ids(rows),
        0 <= i < rows.len(),
    ensures
        without(rows, rows[i].id) == rows.remove(i),
{
    let id = rows[i].id;
    let keep = |row: PersonView| row.id != id;
    let before = rows.take(i);
    let at = seq![rows[i]];
    let after = rows.skip(i + 1);
    assert(rows =~= before + at + after);
    assert(rows.remove(i) =~= before + after);
    Seq::filter_distributes_over_add(before + at, after, keep);
    Seq::filter_distributes_over_add(before, at, keep);
    assert forall|k: int| 0 <= k < before.len() implies keep(#[trigger] before[k]) by {
        assert(before[k] == rows[k]);
        assert(rows[k].id != rows[i].id);
    }
    lemma_filter_keeps_all(before, keep);
    assert forall|k: int| 0 <= k < after.len() implies keep(#[trigger] after[k]) by {
        assert(after[k] == rows[k + i + 1]);
        assert(rows[i].id != rows[k + i + 1].id);
    }
    lemma_filter_keeps_all(after, keep);
    at.lemma_all_neg_filter_empty(keep);
    assert(at.filter(keep) =~= Seq::<PersonView>::empty());
}

} // verus!
