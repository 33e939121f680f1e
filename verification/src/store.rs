//! The signatory store: a connection pool over a single-file SQLite
//! database holding the `signatories` table.
//!
//! The table's contents are modelled by `store_rows`, a sequence of rows
//! in insertion order. Inserting appends one row in the `sig` category;
//! the two listing queries return the display projection of the `sig`
//! rows (respectively of those with a non-empty comment) in a random
//! order, so their contracts speak of multisets, never of order. The
//! lemmas at the end draw the listing laws out of those contracts.

use crate::model::{
    display_multiset, is_quote_row, is_sig_row, project, quote_count, quote_multiset, row_of,
    views_of, DisplayModel, DisplaySignatory, RowModel, SigModel, Signatory, StoreError,
};
use vstd::prelude::*;
use vstd::seq_lib::group_seq_properties;

verus! {

/// A handle on the signatory table: a bounded pool of connections to one
/// SQLite database file, checked out for the duration of one operation.
/// The pool's type cannot be declared to the verifier (its type
/// parameter is bound by an outside trait), so the whole struct is
/// opaque and `store_rows` is its only window.
#[verifier::external_body]
pub struct Store {
    pool: r2d2::Pool<r2d2_sqlite::SqliteConnectionManager>,
}

/// The rows of the `signatories` table behind `s`, in insertion order.
pub uninterp spec fn store_rows(s: Store) -> Seq<RowModel>;

/// Relies on `r2d2_sqlite::SqliteConnectionManager::memory`: it opens a
/// fresh shared-cache in-memory database keyed to this manager alone,
/// and the manager holds one connection open for its lifetime, so the
/// database starts empty and persists across uses; and on
/// `rusqlite::Connection::execute` to create the `signatories` table.
#[verifier::external_body]
fn store_open_memory() -> (r: Result<Store, StoreError>)
    ensures
        r matches Ok(s) ==> store_rows(s) == Seq::<RowModel>::empty(),
{
    let manager = r2d2_sqlite::SqliteConnectionManager::memory();
    let pool = r2d2::Pool::builder().max_size(1).build(manager).map_err(
        |_| StoreError::Unavailable,
    )?;
    let conn = pool.get().map_err(|_| StoreError::Unavailable)?;
    conn.execute(
        "CREATE TABLE signatories (name TEXT, title TEXT, email TEXT, organisation TEXT, url TEXT, comment TEXT, mailing_list_opt_in INTEGER, created_on INTEGER, type TEXT DEFAULT 'sig')",
        (),
    ).map_err(|_| StoreError::Rejected)?;
    drop(conn);
    Ok(Store { pool })
}

/// Relies on `r2d2::Pool` over `r2d2_sqlite::SqliteConnectionManager::file`:
/// a bounded pool of connections to the named database file, with a
/// bounded wait for a connection; and on `rusqlite::Connection::execute`
/// to create the `signatories` table if the file does not hold one. The
/// file may already hold rows, so nothing is promised of the contents.
#[verifier::external_body]
fn store_open_file(path: &str) -> (r: Result<Store, StoreError>)
{
    let manager = r2d2_sqlite::SqliteConnectionManager::file(path);
    let pool = r2d2::Pool::builder().connection_timeout(
        std::time::Duration::from_secs(3),
    ).build(manager).map_err(|_| StoreError::Unavailable)?;
    let conn = pool.get().map_err(|_| StoreError::Unavailable)?;
    conn.execute(
        "CREATE TABLE IF NOT EXISTS signatories (name TEXT, title TEXT, email TEXT, organisation TEXT, url TEXT, comment TEXT, mailing_list_opt_in INTEGER, created_on INTEGER, type TEXT DEFAULT 'sig')",
        (),
    ).map_err(|_| StoreError::Rejected)?;
    drop(conn);
    Ok(Store { pool })
}

/// Relies on `rusqlite::Connection::execute` with an `INSERT` statement:
/// on success exactly the bound row is appended, in the `sig` category
/// named by the statement itself; on failure, or when no connection
/// could be had from `r2d2::Pool::get`, the table is unchanged.
#[verifier::external_body]
fn store_insert(s: &mut Store, record: &Signatory) -> (r: Result<(), StoreError>)
    ensures
        r is Ok ==> store_rows(*final(s)) == store_rows(*old(s)).push(row_of(record@)),
        r is Err ==> store_rows(*final(s)) == store_rows(*old(s)),
{
    let conn = match s.pool.get() {
        Ok(c) => c,
        Err(_) => return Err(StoreError::Unavailable),
    };
    let opt_in: i64 = if record.mailing_list_opt_in { 1 } else { 0 };
    match conn.execute(
        "INSERT INTO signatories (name, title, email, organisation, url, comment, mailing_list_opt_in, created_on, type) VALUES (?1, ?2, ?3, ?4, ?5, ?6, ?7, ?8, 'sig')",
        (&record.name, &record.title, &record.email, &record.organisation, &record.url,
        &record.comment, opt_in, record.created_on),
    ) {
        Ok(_) => Ok(()),
        Err(_) => Err(StoreError::Rejected),
    }
}

/// Relies on `rusqlite`'s `prepare` and `query_map` with a `SELECT`
/// filtered to `type = 'sig'` and ordered by `random()`: the result holds
/// the display projection of exactly the `sig` rows, in some order.
#[verifier::external_body]
fn store_list_signatories(s: &Store) -> (r: Result<Vec<DisplaySignatory>, StoreError>)
    ensures
        r matches Ok(v) ==> views_of(v@).to_multiset() == display_multiset(store_rows(*s)),
{
    let conn = s.pool.get().map_err(|_| StoreError::Unavailable)?;
    let sql =
        "SELECT name, title, organisation, url, comment FROM signatories WHERE type = 'sig' ORDER BY random()";
    let mut stmt = conn.prepare(sql).map_err(|_| StoreError::Rejected)?;
    let rows = stmt.query_map([], |row| {
        Ok(DisplaySignatory { name: row.get(0)?, title: row.get(1)?, organisation: row.get(2)?, url: row.get(3)?, comment: row.get(4)? })
    });
    rows.and_then(|m| m.collect::<Result<Vec<_>, _>>()).map_err(|_| StoreError::Rejected)
}

/// Relies on the same `SELECT`, further filtered to `comment <> ''` and
/// capped by `LIMIT 3`: the result is drawn from the display projections
/// of the quote rows, and it is only shorter than 3 when there are fewer
/// quote rows than that.
#[verifier::external_body]
fn store_list_quotes(s: &Store) -> (r: Result<Vec<DisplaySignatory>, StoreError>)
    ensures
        r matches Ok(v) ==> views_of(v@).to_multiset().subset_of(
            quote_multiset(store_rows(*s)),
        ) && v@.len() == quote_count(store_rows(*s)),
{
    let conn = s.pool.get().map_err(|_| StoreError::Unavailable)?;
    let sql =
        "SELECT name, title, organisation, url, comment FROM signatories WHERE type = 'sig' AND comment <> '' ORDER BY random() LIMIT 3";
    let mut stmt = conn.prepare(sql).map_err(|_| StoreError::Rejected)?;
    let rows = stmt.query_map([], |row| {
        Ok(DisplaySignatory { name: row.get(0)?, title: row.get(1)?, organisation: row.get(2)?, url: row.get(3)?, comment: row.get(4)? })
    });
    rows.and_then(|m| m.collect::<Result<Vec<_>, _>>()).map_err(|_| StoreError::Rejected)
}

impl Store {
    /// Open a fresh, empty store in memory.
    pub fn open_memory() -> (r: Result<Store, StoreError>)
        ensures
            r matches Ok(s) ==> store_rows(s) == Seq::<RowModel>::empty(),
    {
        store_open_memory()
    }

    /// Open the store kept in the named database file, creating the
    /// table if the file does not hold one. The file may already hold
    /// rows, so nothing is promised of the contents.
    pub fn open_file(path: &str) -> Result<Store, StoreError> {
        store_open_file(path)
    }

    /// Append one validated record to the table, in the `sig` category.
    /// On failure of any kind the table is unchanged.
    pub fn insert(&mut self, record: &Signatory) -> (r: Result<(), StoreError>)
        ensures
            r is Ok ==> store_rows(*final(self)) == store_rows(*old(self)).push(row_of(record@)),
            r is Err ==> store_rows(*final(self)) == store_rows(*old(self)),
    {
        store_insert(self, record)
    }

    /// Every `sig` row, projected for display, in an unspecified order
    /// that is drawn anew on every call.
    pub fn list_signatories(&self) -> (r: Result<Vec<DisplaySignatory>, StoreError>)
        ensures
            r matches Ok(v) ==> views_of(v@).to_multiset() == display_multiset(store_rows(*self)),
    {
        store_list_signatories(self)
    }

    /// At most 3 quote rows -- `sig` rows with a non-empty comment --
    /// projected for display, drawn in an unspecified order; fewer than 3
    /// only when the table holds fewer than 3 quote rows.
    pub fn list_quotes(&self) -> (r: Result<Vec<DisplaySignatory>, StoreError>)
        ensures
            r matches Ok(v) ==> v@.len() <= 3,
            r matches Ok(v) ==> views_of(v@).to_multiset().subset_of(
                quote_multiset(store_rows(*self)),
            ) && v@.len() == quote_count(store_rows(*self)),
    {
        store_list_quotes(self)
    }
}

/// Appending a `sig` row adds exactly its projection to the displayed
/// multiset.
proof fn lemma_display_multiset_push(rows: Seq<RowModel>, r: RowModel)
    requires
        is_sig_row(r),
    ensures
        display_multiset(rows.push(r)) == display_multiset(rows).insert(project(r)),
{
    broadcast use group_seq_properties;

    assert(rows.push(r).drop_last() =~= rows);
    assert(rows.push(r).last() == r);
}

/// Every element of the quote multiset is the projection of a quote row,
/// so its comment is present and non-empty.
proof fn lemma_quote_multiset_has_comments(rows: Seq<RowModel>, d: DisplayModel)
    requires
        quote_multiset(rows).count(d) > 0,
    ensures
        d.comment matches Some(c) && c.len() > 0,
    decreases rows.len(),
{
    broadcast use vstd::multiset::group_multiset_axioms;

    if rows.len() > 0 {
        if is_quote_row(rows.last()) && d == project(rows.last()) {
        } else {
            lemma_quote_multiset_has_comments(rows.drop_last(), d);
        }
    }
}

/// After a successful `insert` of a record, any successful
/// `list_signatories` result holds the display projection of exactly that
/// record: the row was stored and is never filtered out.
pub proof fn lemma_insert_then_listed(
    before: Seq<RowModel>,
    record: SigModel,
    listed: Seq<DisplayModel>,
)
    requires
        listed.to_multiset() == display_multiset(before.push(row_of(record))),
    ensures
        listed.contains(project(row_of(record))),
{
    broadcast use vstd::seq_lib::group_to_multiset_ensures;
    broadcast use vstd::multiset::group_multiset_axioms;

    lemma_display_multiset_push(before, row_of(record));
    assert(listed.to_multiset().count(project(row_of(record))) > 0);
}

/// Two listings of the same store with no intervening write return the
/// same rows as a set; only the order may differ.
pub proof fn lemma_listing_stable(
    rows: Seq<RowModel>,
    first: Seq<DisplayModel>,
    second: Seq<DisplayModel>,
)
    requires
        first.to_multiset() == display_multiset(rows),
        second.to_multiset() == display_multiset(rows),
    ensures
        first.to_multiset() == second.to_multiset(),
        forall|d: DisplayModel| first.contains(d) <==> second.contains(d),
{
    broadcast use vstd::seq_lib::group_to_multiset_ensures;

    assert forall|d: DisplayModel| first.contains(d) <==> second.contains(d) by {
        assert(first.contains(d) <==> first.to_multiset().count(d) > 0);
        assert(second.contains(d) <==> second.to_multiset().count(d) > 0);
    }
}

/// Every entry a quote listing returns carries a non-empty comment.
pub proof fn lemma_quotes_have_comments(rows: Seq<RowModel>, listed: Seq<DisplayModel>, i: int)
    requires
        listed.to_multiset().subset_of(quote_multiset(rows)),
        0 <= i < listed.len(),
    ensures
        listed[i].comment matches Some(c) && c.len() > 0,
{
    broadcast use vstd::seq_lib::group_to_multiset_ensures;
    broadcast use vstd::multiset::group_multiset_axioms;

    assert(listed.contains(listed[i]));
    assert(quote_multiset(rows).count(listed[i]) > 0);
    lemma_quote_multiset_has_comments(rows, listed[i]);
}

} // verus!
