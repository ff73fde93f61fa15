//! The store gateway: a single serialized connection to the relational store.
//!
//! All persisted state lives in three tables, modeled here as maps:
//! `users` (username -> created_at and color theme), `aliases`
//! (name -> content, type id, author, created_at) and `alias_types`
//! (category name -> id). A table that does not exist yet reads as the empty
//! map. The tables this library creates key each map by a primary key, so at
//! most one row per key exists.
//!
//! Exclusive access is enforced by the type system: every statement runs
//! against a `&mut Store` (or `&Store` for reads), so no two operations can
//! interleave their statements on one store. Writes that depend on a lookup
//! (resolving a category name to its id) run the lookup first and then issue
//! one single-statement write, all under the same exclusive borrow; together
//! with the store engine's per-statement atomicity this gives the same
//! guarantee an explicit transaction around the pair would: either the whole
//! dependent write lands, or nothing does.

use vstd::prelude::*;

use rusqlite::OptionalExtension;

use crate::error::Error;

verus! {

#[verifier::external_type_specification]
#[verifier::external_body]
pub struct ExConnection(rusqlite::Connection);

// The contents of the `users` table: username -> (created_at, color_theme).
pub uninterp spec fn users_of(c: rusqlite::Connection) -> Map<Seq<char>, (u64, Seq<char>)>;

// The contents of the `aliases` table:
// name -> (content, type id, author, created_at).
pub uninterp spec fn aliases_of(c: rusqlite::Connection) -> Map<
    Seq<char>,
    (Seq<char>, i64, Seq<char>, u64),
>;

// The contents of the `alias_types` lookup table: category name -> id.
pub uninterp spec fn alias_types_of(c: rusqlite::Connection) -> Map<Seq<char>, i64>;

/// The fixed category set every initialized store carries.
pub open spec fn canonical_alias_types() -> Map<Seq<char>, i64> {
    map![
        "Text"@ => 1i64,
        "Image"@ => 2i64,
        "Gif"@ => 3i64,
        "Emote"@ => 4i64,
        "AnimatedEmote"@ => 5i64,
    ]
}

/// Relies on rusqlite's `Connection::open_in_memory`: a fresh in-memory
/// database holds no tables, so every table view reads as empty.
#[verifier::external_body]
fn open_memory_conn() -> (r: Result<rusqlite::Connection, Error>)
    ensures
        match r {
            Ok(c) => users_of(c) == Map::<Seq<char>, (u64, Seq<char>)>::empty() && aliases_of(c)
                == Map::<Seq<char>, (Seq<char>, i64, Seq<char>, u64)>::empty() && alias_types_of(c)
                == Map::<Seq<char>, i64>::empty(),
            Err(e) => e == Error::InternalError,
        },
{
    rusqlite::Connection::open_in_memory().map_err(|_| Error::InternalError)
}

/// Relies on rusqlite's `Connection::execute_batch` running `CREATE TABLE IF
/// NOT EXISTS` statements: existing rows are untouched, and a table that was
/// absent is created empty, which leaves all three table views unchanged.
#[verifier::external_body]
fn x_create_tables(conn: &mut rusqlite::Connection) -> (r: Result<(), Error>)
    ensures
        match r {
            Ok(()) => users_of(*final(conn)) == users_of(*old(conn)) && aliases_of(*final(conn))
                == aliases_of(*old(conn)) && alias_types_of(*final(conn)) == alias_types_of(*old(conn)),
            Err(e) => e == Error::InternalError,
        },
{
    conn.execute_batch(
        "CREATE TABLE IF NOT EXISTS users (username TEXT PRIMARY KEY NOT NULL, created_at INTEGER NOT NULL, color_theme TEXT NOT NULL DEFAULT 'light-theme');
        CREATE TABLE IF NOT EXISTS alias_types (id INTEGER PRIMARY KEY NOT NULL, name TEXT NOT NULL UNIQUE);
        CREATE TABLE IF NOT EXISTS aliases (name TEXT PRIMARY KEY NOT NULL, content TEXT NOT NULL, type INTEGER NOT NULL REFERENCES alias_types(id), author TEXT NOT NULL, created_at INTEGER NOT NULL);",
    ).map_err(|_| Error::InternalError)
}

/// Relies on rusqlite's `Connection::execute_batch`: the batch deletes every
/// `alias_types` row outside the canonical set and (re)inserts the canonical
/// five, so on success the lookup table holds exactly the canonical map; the
/// other tables are not touched. Foreign-key enforcement is disabled for the
/// duration of the batch, as the migration contract requires.
#[verifier::external_body]
fn x_seed_types(conn: &mut rusqlite::Connection) -> (r: Result<(), Error>)
    ensures
        match r {
            Ok(()) => users_of(*final(conn)) == users_of(*old(conn)) && aliases_of(*final(conn))
                == aliases_of(*old(conn)) && alias_types_of(*final(conn))
                == canonical_alias_types(),
            Err(e) => e == Error::InternalError,
        },
{
    conn.execute_batch(
        "PRAGMA foreign_keys=OFF;
        DELETE FROM alias_types WHERE name NOT IN ('Text','Image','Gif','Emote','AnimatedEmote');
        INSERT OR REPLACE INTO alias_types (id, name) VALUES (1,'Text'),(2,'Image'),(3,'Gif'),(4,'Emote'),(5,'AnimatedEmote');
        PRAGMA foreign_keys=ON;",
    ).map_err(|_| Error::InternalError)
}

/// Relies on `std::time::SystemTime`: seconds elapsed since the Unix epoch,
/// or 0 if the system clock reads earlier than the epoch.
#[verifier::external_body]
pub(crate) fn unix_now() -> u64 {
    std::time::SystemTime::UNIX_EPOCH.elapsed().map(|d| d.as_secs()).unwrap_or(0)
}

/// Owns the single serialized connection to the relational store.
pub struct Store {
    conn: rusqlite::Connection,
}

impl Store {
    /// The `users` table: username -> (created_at, color_theme).
    pub closed spec fn users(self) -> Map<Seq<char>, (u64, Seq<char>)> {
        users_of(self.conn)
    }

    /// The `aliases` table: name -> (content, type id, author, created_at).
    pub closed spec fn aliases(self) -> Map<Seq<char>, (Seq<char>, i64, Seq<char>, u64)> {
        aliases_of(self.conn)
    }

    /// The `alias_types` lookup table: category name -> id.
    pub closed spec fn types(self) -> Map<Seq<char>, i64> {
        alias_types_of(self.conn)
    }

    /// An initialized store carries exactly the canonical category set.
    pub open spec fn wf(self) -> bool {
        self.types() == canonical_alias_types()
    }

    /// Applies the schema migration to a connection and wraps it. Applying
    /// the migration to an already-initialized store is a no-op for user and
    /// alias rows.
    pub fn init(conn: rusqlite::Connection) -> (r: Result<Store, Error>)
        ensures
            match r {
                Ok(s) => s.wf() && s.users() == users_of(conn) && s.aliases() == aliases_of(conn),
                Err(e) => e == Error::InternalError,
            },
    {
        let mut c = conn;
        match x_create_tables(&mut c) {
            Ok(()) => {},
            Err(e) => {
                return Err(e);
            },
        }
        match x_seed_types(&mut c) {
            Ok(()) => {},
            Err(e) => {
                return Err(e);
            },
        }
        Ok(Store { conn: c })
    }

    /// Opens and initializes a fresh in-memory store.
    pub fn open_in_memory() -> (r: Result<Store, Error>)
        ensures
            match r {
                Ok(s) => s.wf() && s.users() == Map::<Seq<char>, (u64, Seq<char>)>::empty()
                    && s.aliases() == Map::<Seq<char>, (Seq<char>, i64, Seq<char>, u64)>::empty(),
                Err(e) => e == Error::InternalError,
            },
    {
        match open_memory_conn() {
            Ok(c) => Store::init(c),
            Err(e) => Err(e),
        }
    }

    /// Relies on rusqlite's `Connection::query_row` plus
    /// `OptionalExtension::optional`: the point query returns the single
    /// `users` row for the key, or no row.
    #[verifier::external_body]
    pub(crate) fn q_user(&self, username: &str) -> (r: Result<Option<(u64, String)>, Error>)
        ensures
            match r {
                Ok(opt) => match opt {
                    Option::Some(t) => self.users().contains_key(username@)
                        && self.users()[username@] == (t.0, t.1@),
                    Option::None => !self.users().contains_key(username@),
                },
                Err(e) => e == Error::InternalError,
            },
    {
        self.conn.query_row(
            "SELECT created_at, color_theme FROM users WHERE username = ?1",
            (username,),
            |row| Ok((row.get(0)?, row.get(1)?)),
        ).optional().map_err(|_| Error::InternalError)
    }

    /// Relies on rusqlite's `Connection::prepare` and `Statement::query_map`:
    /// the scan returns every `users` row exactly once, in some order.
    #[verifier::external_body]
    pub(crate) fn q_all_users(&self) -> (r: Result<Vec<(String, u64, String)>, Error>)
        ensures
            match r {
                Ok(v) => {
                    &&& v@.len() == self.users().len()
                    &&& forall|i: int|
                        0 <= i < v@.len() ==> self.users().contains_pair(
                            (#[trigger] v@[i]).0@,
                            (v@[i].1, v@[i].2@),
                        )
                    &&& forall|i: int, j: int|
                        0 <= i < j < v@.len() ==> (#[trigger] v@[i]).0@ != (#[trigger] v@[j]).0@
                    &&& forall|k: Seq<char>|
                        #[trigger] self.users().contains_key(k) ==> exists|i: int|
                            0 <= i < v@.len() && (#[trigger] v@[i]).0@ == k
                },
                Err(e) => e == Error::InternalError,
            },
    {
        let mut stmt = self.conn.prepare(
            "SELECT username, created_at, color_theme FROM users",
        ).map_err(|_| Error::InternalError)?;
        let rows = stmt.query_map((), |row| Ok((row.get(0)?, row.get(1)?, row.get(2)?))).map_err(
            |_| Error::InternalError,
        )?;
        rows.collect::<Result<Vec<_>, _>>().map_err(|_| Error::InternalError)
    }

    /// Relies on rusqlite's `Connection::execute` running a single `INSERT`
    /// into `users`: on success exactly the given row was added; a failed
    /// statement (for example a primary-key conflict) leaves the database
    /// unchanged, per SQLite's statement-level rollback.
    #[verifier::external_body]
    pub(crate) fn x_insert_user(
        &mut self,
        username: &str,
        created_at: u64,
        color_theme: &str,
    ) -> (r: Result<(), Error>)
        ensures
            final(self).aliases() == old(self).aliases(),
            final(self).types() == old(self).types(),
            match r {
                Ok(()) => final(self).users() == old(self).users().insert(
                    username@,
                    (created_at, color_theme@),
                ),
                Err(e) => e == Error::InternalError && final(self).users() == old(self).users(),
            },
    {
        self.conn.execute(
            "INSERT INTO users (username, created_at, color_theme) VALUES (?1, ?2, ?3)",
            (username, created_at, color_theme),
        ).map(|_| ()).map_err(|_| Error::InternalError)
    }

    /// Relies on rusqlite's `Connection::execute` running a single `UPDATE`
    /// of `users.color_theme` keyed by username: on success the row, if
    /// present, carries the new theme; updating an absent key changes
    /// nothing. A failed statement leaves the database unchanged.
    #[verifier::external_body]
    pub(crate) fn x_update_settings(&mut self, username: &str, color_theme: &str) -> (r: Result<
        (),
        Error,
    >)
        ensures
            final(self).aliases() == old(self).aliases(),
            final(self).types() == old(self).types(),
            match r {
                Ok(()) => final(self).users() == (if old(self).users().contains_key(username@) {
                    old(self).users().insert(
                        username@,
                        (old(self).users()[username@].0, color_theme@),
                    )
                } else {
                    old(self).users()
                }),
                Err(e) => e == Error::InternalError && final(self).users() == old(self).users(),
            },
    {
        self.conn.execute(
            "UPDATE users SET color_theme = ?2 WHERE username = ?1",
            (username, color_theme),
        ).map(|_| ()).map_err(|_| Error::InternalError)
    }

    /// Relies on rusqlite's `Connection::query_row` plus
    /// `OptionalExtension::optional`: the point query returns the single
    /// `aliases` row for the key, or no row.
    #[verifier::external_body]
    pub(crate) fn q_alias(&self, name: &str) -> (r: Result<
        Option<(String, i64, String, u64)>,
        Error,
    >)
        ensures
            match r {
                Ok(opt) => match opt {
                    Option::Some(t) => self.aliases().contains_key(name@) && self.aliases()[name@]
                        == (t.0@, t.1, t.2@, t.3),
                    Option::None => !self.aliases().contains_key(name@),
                },
                Err(e) => e == Error::InternalError,
            },
    {
        self.conn.query_row(
            "SELECT content, type, author, created_at FROM aliases WHERE name = ?1",
            (name,),
            |row| Ok((row.get(0)?, row.get(1)?, row.get(2)?, row.get(3)?)),
        ).optional().map_err(|_| Error::InternalError)
    }

    /// Relies on rusqlite's `Connection::prepare` and `Statement::query_map`:
    /// the scan returns every `aliases` row exactly once, in some order.
    #[verifier::external_body]
    pub(crate) fn q_all_aliases(&self) -> (r: Result<
        Vec<(String, String, i64, String, u64)>,
        Error,
    >)
        ensures
            match r {
                Ok(v) => {
                    &&& v@.len() == self.aliases().len()
                    &&& forall|i: int|
                        0 <= i < v@.len() ==> self.aliases().contains_pair(
                            (#[trigger] v@[i]).0@,
                            (v@[i].1@, v@[i].2, v@[i].3@, v@[i].4),
                        )
                    &&& forall|i: int, j: int|
                        0 <= i < j < v@.len() ==> (#[trigger] v@[i]).0@ != (#[trigger] v@[j]).0@
                    &&& forall|k: Seq<char>|
                        #[trigger] self.aliases().contains_key(k) ==> exists|i: int|
                            0 <= i < v@.len() && (#[trigger] v@[i]).0@ == k
                },
                Err(e) => e == Error::InternalError,
            },
    {
        let mut stmt = self.conn.prepare(
            "SELECT name, content, type, author, created_at FROM aliases",
        ).map_err(|_| Error::InternalError)?;
        let rows = stmt.query_map(
            (),
            |row| Ok((row.get(0)?, row.get(1)?, row.get(2)?, row.get(3)?, row.get(4)?)),
        ).map_err(|_| Error::InternalError)?;
        rows.collect::<Result<Vec<_>, _>>().map_err(|_| Error::InternalError)
    }

    /// Relies on rusqlite's `Connection::query_row` plus
    /// `OptionalExtension::optional`: looks up the id of a category name in
    /// `alias_types`, whose name column is unique.
    #[verifier::external_body]
    pub(crate) fn q_type_id(&self, category: &str) -> (r: Result<Option<i64>, Error>)
        ensures
            match r {
                Ok(opt) => match opt {
                    Option::Some(id) => self.types().contains_pair(category@, id),
                    Option::None => !self.types().contains_key(category@),
                },
                Err(e) => e == Error::InternalError,
            },
    {
        self.conn.query_row(
            "SELECT id FROM alias_types WHERE name = ?1",
            (category,),
            |row| row.get(0),
        ).optional().map_err(|_| Error::InternalError)
    }

    /// Relies on rusqlite's `Connection::query_row` plus
    /// `OptionalExtension::optional`: looks up the name of a category id in
    /// `alias_types`, whose id column is the primary key, so at most one name
    /// carries the id.
    #[verifier::external_body]
    pub(crate) fn q_category(&self, id: i64) -> (r: Result<Option<String>, Error>)
        ensures
            match r {
                Ok(opt) => match opt {
                    Option::Some(n) => self.types().contains_pair(n@, id),
                    Option::None => forall|k: Seq<char>|
                        !(#[trigger] self.types().contains_pair(k, id)),
                },
                Err(e) => e == Error::InternalError,
            },
    {
        self.conn.query_row(
            "SELECT name FROM alias_types WHERE id = ?1",
            (id,),
            |row| row.get(0),
        ).optional().map_err(|_| Error::InternalError)
    }

    /// Relies on rusqlite's `Connection::execute` running a single `INSERT`
    /// into `aliases`: on success exactly the given row was added; a failed
    /// statement (for example a primary-key conflict) leaves the database
    /// unchanged, per SQLite's statement-level rollback.
    #[verifier::external_body]
    pub(crate) fn x_insert_alias(
        &mut self,
        name: &str,
        content: &str,
        type_id: i64,
        author: &str,
        created_at: u64,
    ) -> (r: Result<(), Error>)
        ensures
            final(self).users() == old(self).users(),
            final(self).types() == old(self).types(),
            match r {
                Ok(()) => final(self).aliases() == old(self).aliases().insert(
                    name@,
                    (content@, type_id, author@, created_at),
                ),
                Err(e) => e == Error::InternalError && final(self).aliases() == old(self).aliases(),
            },
    {
        self.conn.execute(
            "INSERT INTO aliases (name, content, type, author, created_at) VALUES (?1, ?2, ?3, ?4, ?5)",
            (name, content, type_id, author, created_at),
        ).map(|_| ()).map_err(|_| Error::InternalError)
    }

    /// Relies on rusqlite's `Connection::execute` running a single `UPDATE`
    /// of `aliases.content` keyed by name: on success the row, if present,
    /// carries the new content; updating an absent key changes nothing. A
    /// failed statement leaves the database unchanged.
    #[verifier::external_body]
    pub(crate) fn x_update_alias_content(&mut self, name: &str, content: &str) -> (r: Result<
        (),
        Error,
    >)
        ensures
            final(self).users() == old(self).users(),
            final(self).types() == old(self).types(),
            match r {
                Ok(()) => final(self).aliases() == (if old(self).aliases().contains_key(name@) {
                    old(self).aliases().insert(
                        name@,
                        (
                            content@,
                            old(self).aliases()[name@].1,
                            old(self).aliases()[name@].2,
                            old(self).aliases()[name@].3,
                        ),
                    )
                } else {
                    old(self).aliases()
                }),
                Err(e) => e == Error::InternalError && final(self).aliases() == old(self).aliases(),
            },
    {
        self.conn.execute(
            "UPDATE aliases SET content = ?2 WHERE name = ?1",
            (name, content),
        ).map(|_| ()).map_err(|_| Error::InternalError)
    }

    /// Relies on rusqlite's `Connection::execute` running a single `UPDATE`
    /// of `aliases.type` keyed by name: on success the row, if present,
    /// carries the new type id; updating an absent key changes nothing. A
    /// failed statement leaves the database unchanged.
    #[verifier::external_body]
    pub(crate) fn x_update_alias_type(&mut self, name: &str, type_id: i64) -> (r: Result<
        (),
        Error,
    >)
        ensures
            final(self).users() == old(self).users(),
            final(self).types() == old(self).types(),
            match r {
                Ok(()) => final(self).aliases() == (if old(self).aliases().contains_key(name@) {
                    old(self).aliases().insert(
                        name@,
                        (
                            old(self).aliases()[name@].0,
                            type_id,
                            old(self).aliases()[name@].2,
                            old(self).aliases()[name@].3,
                        ),
                    )
                } else {
                    old(self).aliases()
                }),
                Err(e) => e == Error::InternalError && final(self).aliases() == old(self).aliases(),
            },
    {
        self.conn.execute(
            "UPDATE aliases SET type = ?2 WHERE name = ?1",
            (name, type_id),
        ).map(|_| ()).map_err(|_| Error::InternalError)
    }

    /// Relies on rusqlite's `Connection::execute` running one `UPDATE` that
    /// sets `aliases.content` and `aliases.type` together, keyed by name: on
    /// success the row, if present, carries both new values atomically;
    /// updating an absent key changes nothing. A failed statement leaves the
    /// database unchanged.
    #[verifier::external_body]
    pub(crate) fn x_update_alias_both(&mut self, name: &str, content: &str, type_id: i64) -> (r:
        Result<(), Error>)
        ensures
            final(self).users() == old(self).users(),
            final(self).types() == old(self).types(),
            match r {
                Ok(()) => final(self).aliases() == (if old(self).aliases().contains_key(name@) {
                    old(self).aliases().insert(
                        name@,
                        (
                            content@,
                            type_id,
                            old(self).aliases()[name@].2,
                            old(self).aliases()[name@].3,
                        ),
                    )
                } else {
                    old(self).aliases()
                }),
                Err(e) => e == Error::InternalError && final(self).aliases() == old(self).aliases(),
            },
    {
        self.conn.execute(
            "UPDATE aliases SET content = ?2, type = ?3 WHERE name = ?1",
            (name, content, type_id),
        ).map(|_| ()).map_err(|_| Error::InternalError)
    }

    /// Relies on rusqlite's `Connection::execute` running a single `DELETE`
    /// from `aliases` keyed by name: on success the key is absent, whether or
    /// not it existed before. A failed statement leaves the database
    /// unchanged.
    #[verifier::external_body]
    pub(crate) fn x_delete_alias(&mut self, name: &str) -> (r: Result<(), Error>)
        ensures
            final(self).users() == old(self).users(),
            final(self).types() == old(self).types(),
            match r {
                Ok(()) => final(self).aliases() == old(self).aliases().remove(name@),
                Err(e) => e == Error::InternalError && final(self).aliases() == old(self).aliases(),
            },
    {
        self.conn.execute(
            "DELETE FROM aliases WHERE name = ?1",
            (name,),
        ).map(|_| ()).map_err(|_| Error::InternalError)
    }
}

} // verus!
