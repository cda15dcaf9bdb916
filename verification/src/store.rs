//! The storage handle and its model.
//!
//! A [`Store`] owns one SQLite connection and the single table `data` holding
//! rows `(id, name, value, alternate)`. Its ghost model is the sequence of
//! those rows in the table's scan order, each row a tuple of plain values.
//! Every SQL statement the library issues sits behind one trusted wrapper
//! here, whose contract states what the statement does to that sequence.

use vstd::prelude::*;

use crate::entry::Entry;

verus! {

/// One row of the table, as the model sees it: `(id, name, value, alternate)`.
pub type Row = (int, Seq<char>, Seq<char>, Seq<char>);

#[verifier::external_type_specification]
#[verifier::external_body]
pub struct ExConnection(rusqlite::Connection);

#[verifier::external_type_specification]
#[verifier::external_body]
pub struct ExRusqliteError(rusqlite::Error);

/// The rows of the `data` table reachable through a connection, in scan order.
pub uninterp spec fn db_rows(conn: rusqlite::Connection) -> Seq<Row>;

/// Index of the first row with the given name, or `-1` when there is none.
pub open spec fn first_idx(rows: Seq<Row>, name: Seq<char>) -> int
    decreases rows.len(),
{
    if rows.len() == 0 {
        -1
    } else if rows[0].1 == name {
        0
    } else {
        let rest = first_idx(rows.drop_first(), name);
        if rest < 0 {
            -1
        } else {
            1 + rest
        }
    }
}

/// Whether some row carries the given name.
pub open spec fn row_exists(rows: Seq<Row>, name: Seq<char>) -> bool {
    first_idx(rows, name) >= 0
}

/// Every row named `name` gets `value` and `alternate`; all others are untouched.
/// This is what `UPDATE data SET value = ?, alternate = ? WHERE name = ?` does.
pub open spec fn update_rows_model(
    rows: Seq<Row>,
    name: Seq<char>,
    value: Seq<char>,
    alternate: Seq<char>,
) -> Seq<Row> {
    rows.map_values(
        |r: Row|
            if r.1 == name {
                (r.0, r.1, value, alternate)
            } else {
                r
            },
    )
}

/// The rows left after deleting every row named `name`.
pub open spec fn delete_rows_model(rows: Seq<Row>, name: Seq<char>) -> Seq<Row> {
    rows.filter(|r: Row| r.1 != name)
}

/// What `first_idx` points at: the first row with the given name when one
/// exists, `-1` (and no row with that name at all) otherwise.
pub proof fn lemma_first_idx_props(rows: Seq<Row>, name: Seq<char>)
    ensures
        row_exists(rows, name) ==> 0 <= first_idx(rows, name) < rows.len() && rows[first_idx(
            rows,
            name,
        )].1 == name,
        !row_exists(rows, name) ==> (forall|i: int| 0 <= i < rows.len() ==> rows[i].1 != name),
        forall|i: int| 0 <= i < first_idx(rows, name) ==> rows[i].1 != name,
    decreases rows.len(),
{
    if rows.len() == 0 {
    } else if rows[0].1 == name {
    } else {
        let rest = rows.drop_first();
        lemma_first_idx_props(rest, name);
        assert forall|i: int| 1 <= i < rows.len() implies rows[i] == rest[i - 1] by {
            assert(rest[i - 1] == rows[i]);
        }
    }
}

/// How `first_idx` behaves when one row is appended: an existing first match
/// keeps its place, and on a store without the name the new row is the match
/// exactly when it carries the name.
pub proof fn lemma_first_idx_push(rows: Seq<Row>, name: Seq<char>, r: Row)
    ensures
        row_exists(rows, name) ==> first_idx(rows.push(r), name) == first_idx(rows, name),
        !row_exists(rows, name) && r.1 == name ==> first_idx(rows.push(r), name) == rows.len(),
        !row_exists(rows, name) && r.1 != name ==> !row_exists(rows.push(r), name),
    decreases rows.len(),
{
    if rows.len() == 0 {
        assert(rows.push(r)[0] == r);
        assert(rows.push(r).drop_first() =~= Seq::<Row>::empty());
        assert(first_idx(Seq::<Row>::empty(), name) == -1);
    } else {
        let rest = rows.drop_first();
        lemma_first_idx_push(rest, name, r);
        assert(rows.push(r)[0] == rows[0]);
        assert(rows.push(r).drop_first() =~= rest.push(r));
    }
}

/// Rewriting payloads does not move the first match: `update_rows_model`
/// keeps every row's name and position.
pub proof fn lemma_first_idx_update(
    rows: Seq<Row>,
    name: Seq<char>,
    value: Seq<char>,
    alternate: Seq<char>,
    probe: Seq<char>,
)
    ensures
        first_idx(update_rows_model(rows, name, value, alternate), probe) == first_idx(
            rows,
            probe,
        ),
    decreases rows.len(),
{
    let mapped = update_rows_model(rows, name, value, alternate);
    if rows.len() == 0 {
        assert(mapped =~= Seq::<Row>::empty());
    } else {
        lemma_first_idx_update(rows.drop_first(), name, value, alternate, probe);
        assert(mapped.drop_first() =~= update_rows_model(rows.drop_first(), name, value, alternate));
        assert(mapped[0].1 == rows[0].1);
    }
}

/// Handle to the key-value table; the sole owner of the connection.
pub struct Store {
    conn: rusqlite::Connection,
}

impl View for Store {
    type V = Seq<Row>;

    closed spec fn view(&self) -> Seq<Row> {
        db_rows(self.conn)
    }
}

impl Store {
    /// Takes over a connection and makes sure the `data` table exists.
    ///
    /// Relies on `rusqlite::Connection::execute` running
    /// `CREATE TABLE IF NOT EXISTS`, which leaves an existing table (and its
    /// rows) alone: the store starts with whatever rows the connection's
    /// database already held.
    #[verifier::external_body]
    pub fn attach(conn: rusqlite::Connection) -> (r: Result<Store, rusqlite::Error>)
        ensures
            r matches Ok(s) ==> s@ == db_rows(conn),
    {
        let sql = "CREATE TABLE IF NOT EXISTS data \
            (id INTEGER PRIMARY KEY, name TEXT, value TEXT, alternate TEXT);";
        conn.execute(sql, [])?;
        Ok(Store { conn })
    }

    /// Opens a fresh in-memory database holding an empty `data` table.
    ///
    /// Relies on `rusqlite::Connection::open_in_memory`: a new in-memory
    /// database has no tables, so the `data` table just created is empty.
    #[verifier::external_body]
    pub fn open_in_memory() -> (r: Result<Store, rusqlite::Error>)
        ensures
            r matches Ok(s) ==> s@ == Seq::<Row>::empty(),
    {
        let conn = rusqlite::Connection::open_in_memory()?;
        Store::attach(conn)
    }

    /// Relies on `rusqlite::Statement::exists` with
    /// `SELECT name FROM data WHERE name = ?`: true iff some row has that name.
    #[verifier::external_body]
    pub(crate) fn name_exists(&self, name: &str) -> (r: Result<bool, rusqlite::Error>)
        ensures
            r matches Ok(b) ==> b == row_exists(self@, name@),
    {
        let stmt = self.conn.prepare("SELECT name FROM data WHERE name = ?");
        match stmt {
            Ok(mut s) => s.exists([name]),
            Err(e) => Err(e),
        }
    }

    /// Relies on `rusqlite::Connection::query_row` with
    /// `SELECT * FROM data WHERE name = ?`: it hands back the first matching
    /// row in scan order, and `Error::QueryReturnedNoRows` when there is none
    /// (mapped to `None` here).
    #[verifier::external_body]
    pub(crate) fn select_first(&self, name: &str) -> (r: Result<
        Option<Entry>,
        rusqlite::Error,
    >)
        ensures
            r matches Ok(Some(e)) ==> row_exists(self@, name@) && e@ == self@[first_idx(
                self@,
                name@,
            )],
            r matches Ok(None) ==> !row_exists(self@, name@),
    {
        let res = self.conn.query_row("SELECT * FROM data WHERE name = ?", [name], |row| {
            let (_id, name) = (row.get(0)?, row.get(1)?);
            Ok(Entry { _id, name, value: row.get(2)?, alternate: row.get(3)? })
        });
        match res {
            Ok(e) => Ok(Some(e)),
            Err(rusqlite::Error::QueryReturnedNoRows) => Ok(None),
            Err(e) => Err(e),
        }
    }

    /// Relies on `rusqlite::Statement::query_map` over `SELECT * FROM data`:
    /// all rows, in scan order.
    #[verifier::external_body]
    pub(crate) fn select_all(&self) -> (r: Result<Vec<Entry>, rusqlite::Error>)
        ensures
            r matches Ok(v) ==> v@.len() == self@.len() && (forall|i: int|
                0 <= i < v@.len() ==> v@[i]@ == self@[i]),
    {
        let mut stmt = self.conn.prepare("SELECT * FROM data")?;
        let iter = stmt.query_map([], |row| {
            let (_id, name) = (row.get(0)?, row.get(1)?);
            Ok(Entry { _id, name, value: row.get(2)?, alternate: row.get(3)? })
        })?;
        let mut out: Vec<Entry> = Vec::new();
        for e in iter {
            out.push(e?);
        }
        Ok(out)
    }

    /// Relies on `rusqlite::Connection::execute` running
    /// `INSERT INTO data (name, value, alternate) VALUES (?1, ?2, ?3)` on a
    /// rowid table: SQLite gives the new row an `id` one larger than the
    /// largest in use (so the row is fresh and scans last), and id 1 on an
    /// empty table. This is the documented allocation short of rowid
    /// exhaustion, which a store grown by single inserts never reaches.
    #[verifier::external_body]
    pub(crate) fn insert_row(&mut self, name: &str, value: &str, alternate: &str) -> (r:
        Result<(), rusqlite::Error>)
        ensures
            r matches Ok(_) ==> ({
                let added = final(self)@.last();
                final(self)@ == old(self)@.push(added) && added.1 == name@ && added.2 == value@
                    && added.3 == alternate@ && (forall|i: int|
                    0 <= i < old(self)@.len() ==> #[trigger] old(self)@[i].0 < added.0)
                    && (old(self)@.len() == 0 ==> added.0 == 1)
            }),
    {
        self.conn.execute(
            "INSERT INTO data (name, value, alternate) VALUES (?1, ?2, ?3)",
            [name, value, alternate],
        )?;
        Ok(())
    }

    /// Relies on `rusqlite::Connection::execute` running
    /// `UPDATE data SET value = ?, alternate = ? WHERE name = ?`: every row
    /// with that name gets the new payloads, ids and order untouched.
    #[verifier::external_body]
    pub(crate) fn update_rows(&mut self, name: &str, value: &str, alternate: &str) -> (r:
        Result<(), rusqlite::Error>)
        ensures
            r matches Ok(_) ==> final(self)@ == update_rows_model(
                old(self)@,
                name@,
                value@,
                alternate@,
            ),
    {
        self.conn.execute(
            "UPDATE data SET value = ?, alternate = ? WHERE name = ?",
            [value, alternate, name],
        )?;
        Ok(())
    }

    /// Relies on `rusqlite::Connection::execute` running
    /// `DELETE FROM data WHERE name = ?`: every row with that name goes, the
    /// rest keep their order.
    #[verifier::external_body]
    pub(crate) fn delete_rows(&mut self, name: &str) -> (r: Result<(), rusqlite::Error>)
        ensures
            r matches Ok(_) ==> final(self)@ == delete_rows_model(old(self)@, name@),
    {
        self.conn.execute("DELETE FROM data WHERE name = ?", [name])?;
        Ok(())
    }

    /// Relies on `rusqlite::Connection::execute` running `DELETE FROM data`
    /// without a filter: the table is left empty.
    #[verifier::external_body]
    pub(crate) fn clear_rows(&mut self) -> (r: Result<(), rusqlite::Error>)
        ensures
            r matches Ok(_) ==> final(self)@ == Seq::<Row>::empty(),
    {
        self.conn.execute("DELETE FROM data", [])?;
        Ok(())
    }
}

} // verus!
