//! The operations behind the (sub-)commands: create, read, update, toggle,
//! delete, list and drop over the stored mapping.
//!
//! Each function ending in `_cmd` serves one command. All of them work on a
//! [`Store`] and return either the string the command prints or a [`StoreError`].

use vstd::prelude::*;
use vstd::string::*;

use crate::entry::json_of;
use crate::entry::line_of;
use crate::entry::Entry;
use crate::store::delete_rows_model;
use crate::store::first_idx;
use crate::store::lemma_first_idx_props;
use crate::store::row_exists;
use crate::store::update_rows_model;
use crate::store::Row;
use crate::store::Store;

verus! {

/// A custom error type wrapping `rusqlite::Error`.
///
/// Wraps `rusqlite::Error` and adds a more descriptive [`StoreError::NoEntry`] to
/// make errors clearer to users.
#[derive(Debug)]
pub enum StoreError {
    /// A wrapper around a `rusqlite::Error`.
    RusqliteError(rusqlite::Error),
    /// Error for trying to operate on an [`Entry`] that doesn't exist.
    NoEntry,
}

/// The payload a `set` leaves in a field: the new value when one was given,
/// else what was already there.
pub open spec fn chosen(new: Option<String>, cur: Seq<char>) -> Seq<char> {
    match new {
        Some(v) => v@,
        None => cur,
    }
}

/// The rows after `set` on an existing name: every row with that name gets
/// the chosen payloads, defaults read from the first match.
pub open spec fn set_update_model(
    rows: Seq<Row>,
    name: Seq<char>,
    new_value: Option<String>,
    new_alternate: Option<String>,
) -> Seq<Row> {
    let cur = rows[first_idx(rows, name)];
    update_rows_model(rows, name, chosen(new_value, cur.2), chosen(new_alternate, cur.3))
}

/// What `get` renders for the matched row in each mode.
pub open spec fn get_render(
    r: Row,
    value_only: bool,
    alternate_only: bool,
    json_format: bool,
) -> Seq<char> {
    if value_only {
        r.2
    } else if alternate_only {
        r.3
    } else if json_format {
        json_of(r.0, r.1, r.2, r.3)
    } else {
        full_of(r.2, r.3)
    }
}

/// The space-joined `"{value} {alternate}"` rendering.
pub open spec fn full_of(value: Seq<char>, alternate: Seq<char>) -> Seq<char> {
    value + " "@ + alternate
}

/// One line of `list` output: the row in the asked-for format, newline-terminated.
pub open spec fn render_line(r: Row, json_format: bool) -> Seq<char> {
    (if json_format {
        json_of(r.0, r.1, r.2, r.3)
    } else {
        line_of(r.0, r.1, r.2, r.3)
    }) + "\n"@
}

/// Everything `list` prints: one line per row, in scan order; an empty store
/// renders as the empty string.
pub open spec fn render_rows(rows: Seq<Row>, json_format: bool) -> Seq<char>
    decreases rows.len(),
{
    if rows.len() == 0 {
        Seq::empty()
    } else {
        render_rows(rows.drop_last(), json_format) + render_line(rows.last(), json_format)
    }
}

/// Helper function to get an [`Entry`] from the store.
///
/// Only ever returns the first match; having multiple different entries with
/// the same name is not supported.
fn select(store: &Store, name: &str) -> (r: Result<Entry, StoreError>)
    ensures
        r matches Ok(e) ==> row_exists(store@, name@) && e@ == store@[first_idx(store@, name@)],
        r matches Err(StoreError::NoEntry) ==> !row_exists(store@, name@),
{
    match store.select_first(name) {
        Ok(Some(e)) => Ok(e),
        Ok(None) => Err(StoreError::NoEntry),
        Err(e) => Err(StoreError::RusqliteError(e)),
    }
}

/// Helper function to create a new [`Entry`].
///
/// A fresh id, larger than every id in use, is assigned by storage; the new
/// row lands at the end of the scan order.
pub fn new(store: &mut Store, name: String, value: String, alternate: String) -> (r: Result<
    String,
    StoreError,
>)
    ensures
        r matches Ok(s) ==> s@ == "Ok"@ && ({
            let added = final(store)@.last();
            final(store)@ == old(store)@.push(added) && added.1 == name@ && added.2 == value@
                && added.3 == alternate@ && (forall|i: int|
                0 <= i < old(store)@.len() ==> #[trigger] old(store)@[i].0 < added.0)
                && (old(store)@.len() == 0 ==> added.0 == 1)
        }),
        r matches Err(e) ==> e is RusqliteError,
{
    match store.insert_row(name.as_str(), value.as_str(), alternate.as_str()) {
        Ok(_) => Ok("Ok".to_owned()),
        Err(e) => Err(StoreError::RusqliteError(e)),
    }
}

/// Check for the existence of an [`Entry`] in the store.
///
/// Renders the answer as `"true"` or `"false"`.
pub fn exists_cmd(store: &Store, name: String) -> (r: Result<String, StoreError>)
    ensures
        r matches Ok(s) ==> s@ == (if row_exists(store@, name@) {
            "true"@
        } else {
            "false"@
        }),
        r matches Err(e) ==> e is RusqliteError,
{
    match store.name_exists(name.as_str()) {
        Ok(true) => Ok("true".to_owned()),
        Ok(false) => Ok("false".to_owned()),
        Err(e) => Err(StoreError::RusqliteError(e)),
    }
}

/// Delete an [`Entry`] in the store.
///
/// If the entry doesn't exist, this will do nothing: absence is not an error.
pub fn delete_cmd(store: &mut Store, name: String) -> (r: Result<String, StoreError>)
    ensures
        r matches Ok(s) ==> s@ == "Ok"@ && final(store)@ == delete_rows_model(
            old(store)@,
            name@,
        ),
        r matches Err(e) ==> e is RusqliteError,
{
    match store.delete_rows(name.as_str()) {
        Ok(_) => Ok("Ok".to_owned()),
        Err(e) => Err(StoreError::RusqliteError(e)),
    }
}

/// Returns a value (and/or) alternate from the store.
///
/// Fails with [`StoreError::NoEntry`] when no entry has that name; otherwise the
/// first matching row is rendered in the asked-for mode.
pub fn get_cmd(
    store: &Store,
    name: String,
    value_only: bool,
    alternate_only: bool,
    json_format: bool,
) -> (r: Result<String, StoreError>)
    ensures
        r matches Ok(s) ==> row_exists(store@, name@) && s@ == get_render(
            store@[first_idx(store@, name@)],
            value_only,
            alternate_only,
            json_format,
        ),
        r matches Err(StoreError::NoEntry) ==> !row_exists(store@, name@),
{
    let entry = match select(store, name.as_str()) {
        Ok(e) => e,
        Err(e) => {
            return Err(e);
        },
    };
    if value_only {
        return Ok(entry.value);
    }
    if alternate_only {
        return Ok(entry.alternate);
    }
    if json_format {
        return Ok(entry.json());
    }
    let mut s = entry.value;
    s.append(" ");
    s.append(entry.alternate.as_str());
    proof {
        assert(s@ =~= full_of(store@[first_idx(store@, name@)].2, store@[first_idx(
            store@,
            name@,
        )].3));
    }
    Ok(s)
}

/// Creates a new (if not `change_only`) [`Entry`] in the store or updates an
/// existing one.
///
/// On an existing name, each payload is replaced when a new one is given and
/// kept otherwise. On an absent name a new entry is created from the given
/// payloads (missing ones default to the empty string) — unless `change_only`
/// is set, in which case the call fails with [`StoreError::NoEntry`] and changes
/// nothing.
pub fn set_cmd(
    store: &mut Store,
    name: String,
    new_value: Option<String>,
    new_alternate: Option<String>,
    change_only: bool,
) -> (r: Result<String, StoreError>)
    ensures
        r matches Ok(s) ==> s@ == "Ok"@ && (if row_exists(old(store)@, name@) {
            final(store)@ == set_update_model(old(store)@, name@, new_value, new_alternate)
        } else {
            !change_only && ({
                let added = final(store)@.last();
                final(store)@ == old(store)@.push(added) && added.1 == name@ && added.2 == chosen(
                    new_value,
                    Seq::empty(),
                ) && added.3 == chosen(new_alternate, Seq::empty()) && (forall|i: int|
                    0 <= i < old(store)@.len() ==> #[trigger] old(store)@[i].0 < added.0)
                    && (old(store)@.len() == 0 ==> added.0 == 1)
            })
        }),
        r matches Err(StoreError::NoEntry) ==> change_only && !row_exists(old(store)@, name@) && final(store)@ == old(store)@,
{
    let has = match store.name_exists(name.as_str()) {
        Ok(b) => b,
        Err(e) => {
            return Err(StoreError::RusqliteError(e));
        },
    };
    if has {
        let entry = match select(store, name.as_str()) {
            Ok(e) => e,
            Err(e) => {
                return Err(e);
            },
        };
        let value = match new_value {
            Some(v) => v,
            None => entry.value,
        };
        let alternate = match new_alternate {
            Some(a) => a,
            None => entry.alternate,
        };
        match store.update_rows(name.as_str(), value.as_str(), alternate.as_str()) {
            Ok(_) => Ok("Ok".to_owned()),
            Err(e) => Err(StoreError::RusqliteError(e)),
        }
    } else if !change_only {
        let value = match new_value {
            Some(v) => v,
            None => String::new(),
        };
        let alternate = match new_alternate {
            Some(a) => a,
            None => String::new(),
        };
        new(store, name, value, alternate)
    } else {
        Err(StoreError::NoEntry)
    }
}

/// Toggles an [`Entry`]'s value & alternate, returning the new value.
///
/// The stored pair is swapped in place; the returned string is the value
/// after the swap (the old alternate). Fails with [`StoreError::NoEntry`] when no
/// entry has that name.
pub fn toggle_cmd(store: &mut Store, name: String) -> (r: Result<String, StoreError>)
    ensures
        r matches Ok(s) ==> row_exists(old(store)@, name@) && ({
            let m = old(store)@[first_idx(old(store)@, name@)];
            s@ == m.3 && final(store)@ == update_rows_model(old(store)@, name@, m.3, m.2)
        }),
        r matches Err(StoreError::NoEntry) ==> !row_exists(old(store)@, name@) && final(store)@ == old(store)@,
{
    let entry = match select(store, name.as_str()) {
        Ok(e) => e,
        Err(e) => {
            return Err(e);
        },
    };
    proof {
        lemma_first_idx_props(store@, name@);
    }
    match store.update_rows(entry.name.as_str(), entry.alternate.as_str(), entry.value.as_str()) {
        Ok(_) => Ok(entry.alternate),
        Err(e) => Err(StoreError::RusqliteError(e)),
    }
}

/// Lists all entries in the store, one line each, in scan order.
pub fn list_cmd(store: &Store, json: bool) -> (r: Result<String, StoreError>)
    ensures
        r matches Ok(s) ==> s@ == render_rows(store@, json),
        r matches Err(e) ==> e is RusqliteError,
{
    let entries = match store.select_all() {
        Ok(v) => v,
        Err(e) => {
            return Err(StoreError::RusqliteError(e));
        },
    };
    let ghost rows = store@;
    let mut out = String::new();
    let mut i: usize = 0;
    while i < entries.len()
        invariant
            i <= entries.len(),
            entries@.len() == rows.len(),
            forall|j: int| 0 <= j < rows.len() ==> entries@[j]@ == rows[j],
            out@ == render_rows(rows.take(i as int), json),
        decreases entries.len() - i,
    {
        let e = &entries[i];
        let line = if json {
            e.json_string()
        } else {
            e.display_string()
        };
        out.append(line.as_str());
        out.append("\n");
        proof {
            assert(rows.take(i + 1).drop_last() =~= rows.take(i as int));
            assert(rows.take(i + 1).last() == rows[i as int]);
            assert(out@ =~= render_rows(rows.take(i + 1), json));
        }
        i = i + 1;
    }
    proof {
        assert(rows.take(rows.len() as int) =~= rows);
    }
    Ok(out)
}

/// Drops all entries, leaving the mapping empty.
///
/// This won't actually delete the file on disk, nor the table.
pub fn drop_cmd(store: &mut Store) -> (r: Result<String, StoreError>)
    ensures
        r matches Ok(s) ==> s@ == "Ok"@ && final(store)@ == Seq::<Row>::empty(),
        r matches Err(e) ==> e is RusqliteError,
{
    match store.clear_rows() {
        Ok(_) => Ok("Ok".to_owned()),
        Err(e) => Err(StoreError::RusqliteError(e)),
    }
}

} // verus!
