//! What holds of the table across several statements: what a read returns after a create, an
//! update or a delete, and what a statement does where the person is not in the table.
//!
//! The data access layer states each of its operations over the functions of `table`; the
//! theorems here are about those functions, so they hold of the operations.

use vstd::prelude::*;
use crate::models::PersonView;
use crate::table::{
    created, distinct_ids, has_id, lemma_lookup_at, lemma_max_id_is_greatest, lemma_without_absent,
    lemma_without_at, lookup, max_id, next_id_after, position, renamed, without,
};

verus! {

/// Two tables with distinct identifiers that hold the same row, one at `i` and the other at
/// `j`, give the same answer when the identifier of that row is looked up.
proof fn lemma_same_row(a: Seq<PersonView>, i: int, b: Seq<PersonView>, j: int)
    requires
        distinct_ids(a),
        distinct_ids(b),
        0 <= i < a.len(),
        0 <= j < b.len(),
        a[i] == b[j],
    ensures
        lookup(a, a[i].id) == lookup(b, a[i].id),
{
    lemma_lookup_at(a, i);
    lemma_lookup_at(b, j);
}

/// A created person gets the identifier 1 in the empty table and otherwise one more than the
/// greatest identifier; no row carried that identifier before; afterwards a read by that
/// identifier returns the person with the given name, and a read by any other identifier
/// returns what it returned before.
pub proof fn created_person_is_found(rows: Seq<PersonView>, name: Seq<char>)
    requires
        distinct_ids(rows),
    ensures
        rows.len() == 0 ==> next_id_after(max_id(rows)) == 1,
        rows.len() > 0 ==> has_id(rows, next_id_after(max_id(rows)) - 1),
        forall|i: int| 0 <= i < rows.len() ==> (#[trigger] rows[i]).id < next_id_after(max_id(rows)),
        !has_id(rows, next_id_after(max_id(rows))),
        distinct_ids(created(rows, name)),
        lookup(created(rows, name), next_id_after(max_id(rows))) == Some(
            PersonView { id: next_id_after(max_id(rows)), name },
        ),
        forall|other: int|
            other != next_id_after(max_id(rows)) ==> #[trigger] lookup(created(rows, name), other)
                == lookup(rows, other),
{
    let id = next_id_after(max_id(rows));
    let after = created(rows, name);
    let n = rows.len() as int;
    lemma_max_id_is_greatest(rows);
    assert forall|i: int, j: int| 0 <= i < j < after.len() implies (#[trigger] after[i]).id != (
    #[trigger] after[j]).id by {
        assert(after[i] == rows[i]);
        if j < n {
            assert(after[j] == rows[j]);
        }
    }
    assert(after[n] == PersonView { id, name });
    lemma_lookup_at(after, n);
    assert forall|other: int| other != id implies #[trigger] lookup(after, other) == lookup(
        rows,
        other,
    ) by {
        if has_id(rows, other) {
            let p = position(rows, other);
            assert(after[p] == rows[p]);
            lemma_same_row(after, p, rows, p);
        } else if has_id(after, other) {
            let p = position(after, other);
            assert(after[p] == rows[p]);
        }
    }
}

/// A read by an identifier that no row carries returns no person.
pub proof fn absent_person_is_not_found(rows: Seq<PersonView>, id: int)
    requires
        !has_id(rows, id),
    ensures
        lookup(rows, id) is None,
{
}

/// An update or a delete by an identifier that no row carries leaves the table as it is.
pub proof fn absent_person_changes_nothing(rows: Seq<PersonView>, id: int, name: Seq<char>)
    requires
        !has_id(rows, id),
    ensures
        renamed(rows, id, name) == rows,
        without(rows, id) == rows,
{
    assert(renamed(rows, id, name) =~= rows);
    lemma_without_absent(rows, id);
}

/// The table after one person was created for each name of `names`, in their order.
pub open spec fn created_all(rows: Seq<PersonView>, names: Seq<Seq<char>>) -> Seq<PersonView>
    decreases names.len(),
{
    if names.len() == 0 {
        rows
    } else {
        created(created_all(rows, names.drop_last()), names.last())
    }
}

/// After one person was created for each of `names`, the table holds the rows that it held,
/// followed by one row for each name, in the order of creation, with identifiers that count up
/// from the first assigned one. Starting from the empty table it holds exactly as many rows as
/// there are names, and the row for `names[k]` carries the identifier `k + 1`.
pub proof fn listing_returns_what_was_created(rows: Seq<PersonView>, names: Seq<Seq<char>>)
    requires
        distinct_ids(rows),
    ensures
        distinct_ids(created_all(rows, names)),
        created_all(rows, names).len() == rows.len() + names.len(),
        forall|i: int| 0 <= i < rows.len() ==> #[trigger] created_all(rows, names)[i] == rows[i],
        forall|k: int|
            0 <= k < names.len() ==> #[trigger] created_all(rows, names)[rows.len() + k] == (
            PersonView { id: next_id_after(max_id(rows)) + k, name: names[k] }),
        names.len() > 0 ==> max_id(created_all(rows, names)) == Some(
            next_id_after(max_id(rows)) + names.len() - 1,
        ),
    decreases names.len(),
{
    if names.len() > 0 {
        let front = names.drop_last();
        let before = created_all(rows, front);
        let all = created_all(rows, names);
        listing_returns_what_was_created(rows, front);
        created_person_is_found(before, names.last());
        assert(all == before.push(all.last()));
        assert(all.drop_last() =~= before);
        lemma_max_id_is_greatest(before);
        assert forall|i: int| 0 <= i < rows.len() implies #[trigger] all[i] == rows[i] by {
            assert(all[i] == before[i]);
        }
        assert forall|k: int| 0 <= k < names.len() implies #[trigger] all[rows.len() + k] == (
        PersonView { id: next_id_after(max_id(rows)) + k, name: names[k] }) by {
            if k < front.len() {
                assert(all[rows.len() + k] == before[rows.len() + k]);
                assert(front[k] == names[k]);
            }
        }
    }
}

/// After an update of a person that is in the table, a read by its identifier returns the
/// same identifier with the new name, a read by any other identifier returns what it returned
/// before, and every row has kept its place and its identifier.
pub proof fn updated_person_has_new_name(rows: Seq<PersonView>, id: int, name: Seq<char>)
    requires
        distinct_ids(rows),
        has_id(rows, id),
    ensures
        distinct_ids(renamed(rows, id, name)),
        renamed(rows, id, name).len() == rows.len(),
        forall|i: int|
            0 <= i < rows.len() ==> (#[trigger] renamed(rows, id, name)[i]).id == rows[i].id,
        lookup(renamed(rows, id, name), id) == Some(PersonView { id, name }),
        forall|other: int|
            other != id ==> #[trigger] lookup(renamed(rows, id, name), other) == lookup(rows, other),
{
    let after = renamed(rows, id, name);
    assert forall|i: int, j: int| 0 <= i < j < after.len() implies (#[trigger] after[i]).id != (
    #[trigger] after[j]).id by {
        assert(after[i].id == rows[i].id);
        assert(after[j].id == rows[j].id);
    }
    let p = position(rows, id);
    assert(after[p] == PersonView { id, name });
    lemma_lookup_at(after, p);
    assert forall|other: int| other != id implies #[trigger] lookup(after, other) == lookup(
        rows,
        other,
    ) by {
        if has_id(rows, other) {
            let q = position(rows, other);
            assert(after[q] == rows[q]);
            lemma_same_row(after, q, rows, q);
        } else if has_id(after, other) {
            let q = position(after, other);
            assert(after[q].id == rows[q].id);
        }
    }
}

/// After a delete of a person that is in the table, a read by its identifier returns no
/// person, the table has one row less, and a read by any other identifier returns what it
/// returned before.
pub proof fn deleted_person_is_not_found(rows: Seq<PersonView>, id: int)
    requires
        distinct_ids(rows),
        has_id(rows, id),
    ensures
        distinct_ids(without(rows, id)),
        without(rows, id).len() == rows.len() - 1,
        lookup(without(rows, id), id) is None,
        forall|other: int|
            other != id ==> #[trigger] lookup(without(rows, id), other) == lookup(rows, other),
{
    let after = without(rows, id);
    let p = position(rows, id);
    lemma_without_at(rows, p);
    assert forall|i: int| 0 <= i < after.len() implies #[trigger] after[i] == rows[if i < p {
        i
    } else {
        i + 1
    }] by {}
    assert forall|i: int, j: int| 0 <= i < j < after.len() implies (#[trigger] after[i]).id != (
    #[trigger] after[j]).id by {
        let a = if i < p { i } else { i + 1 };
        let b = if j < p { j } else { j + 1 };
        assert(rows[a].id != rows[b].id);
    }
    if has_id(after, id) {
        let q = position(after, id);
        let b = if q < p { q } else { q + 1 };
        assert(after[q] == rows[b]);
        if b < p {
            assert(rows[b].id != rows[p].id);
        } else {
            assert(rows[p].id != rows[b].id);
        }
    }
    assert forall|other: int| other != id implies #[trigger] lookup(after, other) == lookup(
        rows,
        other,
    ) by {
        if has_id(rows, other) {
            let q = position(rows, other);
            let a = if q < p { q } else { q - 1 };
            assert(after[a] == rows[q]);
            lemma_same_row(after, a, rows, q);
        } else if has_id(after, other) {
            let q = position(after, other);
            let b = if q < p { q } else { q + 1 };
            assert(after[q] == rows[b]);
        }
    }
}

} // verus!
