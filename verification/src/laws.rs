//! Laws of the store: how the operations relate to one another, proved over
//! the same model that their contracts use.

use vstd::prelude::*;

use crate::commands::full_of;
use crate::commands::get_render;
use crate::commands::render_rows;
use crate::store::delete_rows_model;
use crate::store::first_idx;
use crate::store::lemma_first_idx_props;
use crate::store::lemma_first_idx_push;
use crate::store::lemma_first_idx_update;
use crate::store::row_exists;
use crate::store::update_rows_model;
use crate::store::Row;

verus! {

/// A store in which no row carries a name does not contain that name.
proof fn lemma_no_match_no_exists(rows: Seq<Row>, name: Seq<char>)
    requires
        forall|i: int| 0 <= i < rows.len() ==> rows[i].1 != name,
    ensures
        !row_exists(rows, name),
{
    lemma_first_idx_props(rows, name);
    if row_exists(rows, name) {
        assert(rows[first_idx(rows, name)].1 == name);
    }
}

/// Law: a name never created does not exist (the empty store holds nothing),
/// and after a successful `set(name, .., false)` it does — creating appends a
/// row with the name, and updating never changes which names are present.
pub proof fn lemma_set_then_exists(
    rows: Seq<Row>,
    name: Seq<char>,
    added: Row,
    value: Seq<char>,
    alternate: Seq<char>,
)
    ensures
        !row_exists(Seq::<Row>::empty(), name),
        added.1 == name ==> row_exists(rows.push(added), name),
        row_exists(update_rows_model(rows, name, value, alternate), name) == row_exists(
            rows,
            name,
        ),
{
    lemma_first_idx_push(rows, name, added);
    lemma_first_idx_props(rows, name);
    lemma_first_idx_update(rows, name, value, alternate, name);
}

/// Law: `set(name, v, a, false)` followed by `get(name, full)` renders
/// `"{v} {a}"`, on the create path (the appended row) and on the update path
/// alike.
pub proof fn lemma_set_then_get_full(
    rows: Seq<Row>,
    name: Seq<char>,
    added: Row,
    v: Seq<char>,
    a: Seq<char>,
)
    requires
        added.1 == name && added.2 == v && added.3 == a,
    ensures
        ({
            let after = if row_exists(rows, name) {
                update_rows_model(rows, name, v, a)
            } else {
                rows.push(added)
            };
            &&& row_exists(after, name)
            &&& get_render(after[first_idx(after, name)], false, false, false) == full_of(v, a)
        }),
{
    lemma_first_idx_props(rows, name);
    if row_exists(rows, name) {
        lemma_first_idx_update(rows, name, v, a, name);
    } else {
        lemma_first_idx_push(rows, name, added);
    }
}

/// Law: toggle is its own inverse. One toggle hands back the alternate and
/// swaps the first match's pairing; a second hands back the original value
/// and restores the first match.
pub proof fn lemma_toggle_round_trip(rows: Seq<Row>, name: Seq<char>)
    requires
        row_exists(rows, name),
    ensures
        ({
            let i = first_idx(rows, name);
            let m = rows[i];
            let once = update_rows_model(rows, name, m.3, m.2);
            &&& first_idx(once, name) == i
            &&& once[i] == (m.0, m.1, m.3, m.2)
            &&& ({
                let m1 = once[first_idx(once, name)];
                let twice = update_rows_model(once, name, m1.3, m1.2);
                &&& m1.3 == m.2
                &&& first_idx(twice, name) == i
                &&& twice[i] == m
            })
        }),
{
    let i = first_idx(rows, name);
    let m = rows[i];
    lemma_first_idx_props(rows, name);
    let once = update_rows_model(rows, name, m.3, m.2);
    lemma_first_idx_update(rows, name, m.3, m.2, name);
    let m1 = once[first_idx(once, name)];
    lemma_first_idx_update(once, name, m1.3, m1.2, name);
}

/// Law: where every row named `name` agrees with the first match (names are
/// unique under the documented lookup discipline), two toggles restore the
/// store exactly.
pub proof fn lemma_toggle_twice_identity(rows: Seq<Row>, name: Seq<char>)
    requires
        row_exists(rows, name),
        forall|j: int|
            0 <= j < rows.len() && rows[j].1 == name ==> rows[j].2 == rows[first_idx(
                rows,
                name,
            )].2 && rows[j].3 == rows[first_idx(rows, name)].3,
    ensures
        ({
            let m = rows[first_idx(rows, name)];
            let once = update_rows_model(rows, name, m.3, m.2);
            let m1 = once[first_idx(once, name)];
            update_rows_model(once, name, m1.3, m1.2) == rows
        }),
{
    lemma_toggle_round_trip(rows, name);
    let m = rows[first_idx(rows, name)];
    let once = update_rows_model(rows, name, m.3, m.2);
    let m1 = once[first_idx(once, name)];
    let twice = update_rows_model(once, name, m1.3, m1.2);
    assert forall|j: int| 0 <= j < rows.len() implies twice[j] == rows[j] by {
        if rows[j].1 == name {
            assert(once[j] == (rows[j].0, rows[j].1, m.3, m.2));
            assert(twice[j] == (rows[j].0, rows[j].1, m1.3, m1.2));
        } else {
            assert(once[j] == rows[j]);
            assert(twice[j] == rows[j]);
        }
    }
    assert(twice =~= rows);
}

/// Law: deleting a name that does not exist changes nothing — `delete` is
/// idempotent, and the name still does not exist afterwards.
pub proof fn lemma_delete_absent_identity(rows: Seq<Row>, name: Seq<char>)
    requires
        !row_exists(rows, name),
    ensures
        delete_rows_model(rows, name) == rows,
    decreases rows.len(),
{
    reveal(Seq::filter);
    lemma_first_idx_props(rows, name);
    if rows.len() == 0 {
        assert(delete_rows_model(rows, name) =~= rows);
    } else {
        let butlast = rows.drop_last();
        lemma_no_match_no_exists(butlast, name);
        lemma_delete_absent_identity(butlast, name);
        assert(delete_rows_model(rows, name) =~= rows);
    }
}

/// Law: after `delete(name)`, no row with that name remains.
pub proof fn lemma_delete_removes(rows: Seq<Row>, name: Seq<char>)
    ensures
        !row_exists(delete_rows_model(rows, name), name),
{
    broadcast use vstd::seq_lib::group_filter_ensures;

    let out = delete_rows_model(rows, name);
    assert(forall|i: int| 0 <= i < out.len() ==> out[i].1 != name);
    lemma_no_match_no_exists(out, name);
}

/// Law: after `drop`, `list` renders the empty string in every format.
pub proof fn lemma_drop_then_list_empty(json_format: bool)
    ensures
        render_rows(Seq::<Row>::empty(), json_format) == Seq::<char>::empty(),
{
}

} // verus!
