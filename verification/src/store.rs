//! The index store: every table-level and row-level operation against the
//! backing SQLite file, stated over a mathematical model of the store.
//!
//! The model is a map from index name to the table it holds, and a table
//! is a map from row key to row data. Each trusted operation says how the
//! real statement it runs moves that model.
//!
//! Index names are interpolated into the statements, quoted with
//! backticks; every operation therefore requires the name to pass
//! `is_sql_ident`: a non-empty run of lower-case ASCII letters. That rule
//! carries two duties at once. Quoting cannot be escaped from such a
//! name. And because SQLite resolves table names without regard to ASCII
//! case, names are kept in one case, so that each model key names one
//! table and two distinct keys name two: the exact-name model below is
//! only faithful under this rule, and the existence check compares names
//! case-insensitively to match the engine's own resolution.
//!
//! Two boundaries of the model, stated once here. It describes the store
//! as seen through this one connection; the design runs one connection
//! per command invocation and adds no coordination of its own, so a
//! second simultaneous writer is outside what these contracts promise.
//! And its tables are the ones this library lays out: named in lower
//! case, with the fixed two-column schema (`key` TEXT PRIMARY KEY,
//! `data` TEXT). A table an outside writer placed in the file under a
//! name of another case — which the engine would let a statement here
//! reach — or with another shape is outside the contracts: in
//! particular the duplicate-key classification reads the engine's
//! primary-key constraint report, which on a foreign schema could
//! concern another column.

use vstd::prelude::*;

verus! {

use vstd::pervasive::arbitrary;
use vstd::string::StringExecFns;
use serde_json::Value;
use crate::outcome::{CmdError, StoreError};
use crate::validation::is_sql_ident;

/// The model of the whole store: index name, to row key, to row data.
pub type DbModel = Map<Seq<char>, Map<Seq<char>, Seq<char>>>;

#[verifier::external_type_specification]
#[verifier::external_body]
pub struct ExConnection(rusqlite::Connection);

#[verifier::external_type_specification]
#[verifier::external_body]
pub struct ExJsonValue(Value);

#[verifier::external_type_specification]
#[verifier::external_body]
#[verifier::reject_recursive_types(K)]
#[verifier::reject_recursive_types(V)]
pub struct ExJsonMap<K, V>(serde_json::Map<K, V>);

/// What `serde_json::from_str` makes of `s` when read as an array of
/// string-keyed objects: the objects in order, or nothing when `s` does
/// not parse as such an array. A function of `s` alone.
pub uninterp spec fn parsed_objs(s: Seq<char>) -> Option<Seq<serde_json::Map<String, Value>>>;

/// The string value a parsed object holds at a field name: what
/// `serde_json::Map::get` finds there, when it is a JSON string. A
/// function of the object's contents and the name alone.
pub uninterp spec fn obj_str_at(m: serde_json::Map<String, Value>, key: Seq<char>) -> Option<
    Seq<char>,
>;

/// The serialization `serde_json::to_string` gives a parsed object: a
/// function of its contents alone (object keys are kept sorted).
pub uninterp spec fn obj_json(m: serde_json::Map<String, Value>) -> Seq<char>;

/// Relies on `serde_json::from_str::<Vec<serde_json::Map<String, Value>>>`:
/// succeeds exactly on a JSON array of string-keyed objects and hands the
/// objects back in order; the error text is the parser's own report.
#[verifier::external_body]
pub(crate) fn parse_obj_array(s: &str) -> (r: Result<Vec<serde_json::Map<String, Value>>, String>)
    ensures
        match r {
            Ok(v) => parsed_objs(s@) == Some(v@),
            Err(_) => parsed_objs(s@) is None,
        },
{
    serde_json::from_str::<Vec<serde_json::Map<String, Value>>>(s).map_err(|e| e.to_string())
}

/// Relies on `serde_json::Map::get`: the string value at `key`, if the
/// object holds one there. A field that is absent, or holds anything but a
/// JSON string, gives nothing.
#[verifier::external_body]
pub(crate) fn obj_get_string(m: &serde_json::Map<String, Value>, key: &str) -> (r: Option<String>)
    ensures
        match r {
            Some(s) => obj_str_at(*m, key@) == Some(s@),
            None => obj_str_at(*m, key@) is None,
        },
{
    match m.get(key) {
        Some(Value::String(s)) => Some(s.clone()),
        _ => None,
    }
}

/// Relies on `serde_json::to_string`: serializes a parsed object back to
/// JSON text. Serializing plain JSON values does not fail in practice;
/// the error text, should one come, is the serializer's own report.
#[verifier::external_body]
pub(crate) fn obj_to_json(m: &serde_json::Map<String, Value>) -> (r: Result<String, String>)
    ensures
        match r {
            Ok(s) => s@ == obj_json(*m),
            Err(_) => true,
        },
{
    serde_json::to_string(m).map_err(|e| e.to_string())
}

/// Every record holds a string at the key field.
pub open spec fn keys_present(objs: Seq<serde_json::Map<String, Value>>, kf: Seq<char>) -> bool {
    forall|i: int| 0 <= i < objs.len() ==> obj_str_at(objs[i], kf) is Some
}

/// The key a record supplies: the string it holds at the key field.
/// Meaningful where the record holds such a string.
pub open spec fn record_key(o: serde_json::Map<String, Value>, kf: Seq<char>) -> Seq<char> {
    match obj_str_at(o, kf) {
        Option::Some(k) => k,
        Option::None => arbitrary(),
    }
}

/// The table after the records are loaded into `t0`, in order: each
/// record binds the string it holds at the key field to its own
/// serialization. Meaningful where every record holds such a string.
pub open spec fn loaded(
    t0: Map<Seq<char>, Seq<char>>,
    objs: Seq<serde_json::Map<String, Value>>,
    kf: Seq<char>,
) -> Map<Seq<char>, Seq<char>>
    decreases objs.len(),
{
    if objs.len() == 0 {
        t0
    } else {
        loaded(t0, objs.drop_last(), kf).insert(
            record_key(objs.last(), kf),
            obj_json(objs.last()),
        )
    }
}

/// Position `i` is where a bulk load must stop: the record there has no
/// string at the key field, or its key is already bound — by `t0` or by
/// an earlier record.
pub open spec fn load_fails_at(
    t0: Map<Seq<char>, Seq<char>>,
    objs: Seq<serde_json::Map<String, Value>>,
    kf: Seq<char>,
    i: int,
) -> bool {
    obj_str_at(objs[i], kf) is None || loaded(t0, objs.take(i), kf).contains_key(
        record_key(objs[i], kf),
    )
}

/// The position at which a bulk load must stop, scanning from `i` on:
/// the first failing position, or the end when every record loads.
pub open spec fn load_stop(
    t0: Map<Seq<char>, Seq<char>>,
    objs: Seq<serde_json::Map<String, Value>>,
    kf: Seq<char>,
    i: int,
) -> int
    decreases objs.len() - i,
{
    if i < 0 || i >= objs.len() {
        i
    } else if load_fails_at(t0, objs, kf, i) {
        i
    } else {
        load_stop(t0, objs, kf, i + 1)
    }
}

/// When no position before `i` stops the load, the stop computed from
/// the start is the stop computed from `i`.
pub proof fn lemma_load_stop_from(
    t0: Map<Seq<char>, Seq<char>>,
    objs: Seq<serde_json::Map<String, Value>>,
    kf: Seq<char>,
    i: int,
)
    requires
        0 <= i <= objs.len(),
        forall|j: int| 0 <= j < i ==> !load_fails_at(t0, objs, kf, j),
    ensures
        load_stop(t0, objs, kf, 0) == load_stop(t0, objs, kf, i),
    decreases i,
{
    if i > 0 {
        lemma_load_stop_from(t0, objs, kf, i - 1);
        assert(load_stop(t0, objs, kf, i - 1) == load_stop(t0, objs, kf, i));
    }
}

/// The stop lies at or after the position it is computed from.
pub proof fn lemma_load_stop_ge(
    t0: Map<Seq<char>, Seq<char>>,
    objs: Seq<serde_json::Map<String, Value>>,
    kf: Seq<char>,
    i: int,
)
    requires
        0 <= i,
    ensures
        load_stop(t0, objs, kf, i) >= i,
    decreases objs.len() - i,
{
    if i < objs.len() && !load_fails_at(t0, objs, kf, i) {
        lemma_load_stop_ge(t0, objs, kf, i + 1);
    }
}

/// How a bulk load ends when a record has no string at the key field:
/// the batch stood whole up to exactly the first such record, and the
/// table holds exactly that prefix loaded into `t0`.
pub open spec fn load_keyless_post(
    s0: DbModel,
    s1: DbModel,
    index: Seq<char>,
    t0: Map<Seq<char>, Seq<char>>,
    objs: Seq<serde_json::Map<String, Value>>,
    kf: Seq<char>,
) -> bool {
    let stop = load_stop(t0, objs, kf, 0);
    &&& stop < objs.len()
    &&& obj_str_at(objs[stop], kf) is None
    &&& s1 == s0.insert(index, loaded(t0, objs.take(stop), kf))
}

/// How a bulk load ends when the engine refuses an insert: some prefix
/// of the records, no longer than up to the first unloadable position,
/// stands loaded; and a duplicate-key report pins the stop exactly — the
/// record there has a key that `t0` or an earlier record already bound.
pub open spec fn load_failed_post(
    s0: DbModel,
    s1: DbModel,
    index: Seq<char>,
    t0: Map<Seq<char>, Seq<char>>,
    objs: Seq<serde_json::Map<String, Value>>,
    kf: Seq<char>,
    err: StoreError,
) -> bool {
    &&& !(err is NoIndex)
    &&& exists|i: int|
        0 <= i <= load_stop(t0, objs, kf, 0) && i < objs.len() && s1 == s0.insert(
            index,
            loaded(t0, objs.take(i), kf),
        ) && (err is DuplicateKey ==> i == load_stop(t0, objs, kf, 0) && obj_str_at(
            objs[i],
            kf,
        ) is Some && loaded(t0, objs.take(i), kf).contains_key(record_key(objs[i], kf)))
}

/// Resetting an index is idempotent: the state a second reset reaches
/// is the state the first one reached, and the index it leaves holds no
/// rows. With `Store::reset`'s contract, two successful resets in a row
/// end in the same model as one.
pub proof fn lemma_reset_idempotent(s0: DbModel, index: Seq<char>)
    ensures
        s0.insert(index, Map::<Seq<char>, Seq<char>>::empty()).insert(
            index,
            Map::<Seq<char>, Seq<char>>::empty(),
        ) == s0.insert(index, Map::<Seq<char>, Seq<char>>::empty()),
        s0.insert(index, Map::<Seq<char>, Seq<char>>::empty())[index].len() == 0,
{
    assert(s0.insert(index, Map::<Seq<char>, Seq<char>>::empty()).insert(
        index,
        Map::<Seq<char>, Seq<char>>::empty(),
    ) =~= s0.insert(index, Map::<Seq<char>, Seq<char>>::empty()));
}

/// A connection to the backing store, carrying the model of what the
/// store holds as seen through it.
pub struct Store {
    conn: rusqlite::Connection,
    model: Ghost<DbModel>,
}

impl View for Store {
    type V = DbModel;

    closed spec fn view(&self) -> DbModel {
        self.model@
    }
}

/// Relies on `rusqlite::Connection::open`: opens (or creates) the backing
/// store at `path`. Nothing is assumed about what the store already holds.
#[verifier::external_body]
fn open_conn(path: &str) -> (r: Result<rusqlite::Connection, StoreError>) {
    rusqlite::Connection::open(path).map_err(|e| StoreError::Other(e.to_string()))
}

impl Store {
    /// Opens the store kept in the file at `path`. The model of a freshly
    /// opened store is unconstrained: it is whatever the file holds.
    pub fn open(path: &str) -> (r: Result<Store, StoreError>) {
        match open_conn(path) {
            Ok(conn) => Ok(Store { conn, model: Ghost(arbitrary()) }),
            Err(e) => Err(e),
        }
    }

    /// Relies on `rusqlite::Connection::execute_batch` running
    /// `DROP TABLE IF EXISTS ...; CREATE TABLE ...`: afterwards the index
    /// exists and holds no rows, whatever it held before. On failure the
    /// batch may have stopped between the two statements, so the index is
    /// either untouched or dropped; every failure is reported as `Other`,
    /// never classified.
    #[verifier::external_body]
    pub(crate) fn raw_reset(&mut self, index: &str) -> (r: Result<(), StoreError>)
        requires
            is_sql_ident(index@),
        ensures
            match r {
                Ok(()) => final(self)@ == old(self)@.insert(
                    index@,
                    Map::<Seq<char>, Seq<char>>::empty(),
                ),
                Err(e) => (final(self)@ == old(self)@ || final(self)@ == old(self)@.remove(
                    index@,
                )) && e is Other,
            },
    {
        let sql = format!(
            "DROP TABLE IF EXISTS `{index}`;\nCREATE TABLE `{index}` (`key` TEXT PRIMARY KEY, `data` TEXT);"
        );
        self.conn.execute_batch(&sql).map_err(|e| StoreError::Other(e.to_string()))
    }

    /// Relies on `rusqlite::Connection::query_row` counting the rows of
    /// `sqlite_master` that name the index's table, compared under
    /// `COLLATE NOCASE` so that the match follows the engine's own
    /// ASCII-case-insensitive name resolution: 1 when the index exists,
    /// 0 when it does not. A read; the store is unchanged.
    #[verifier::external_body]
    pub(crate) fn raw_table_count(&self, index: &str) -> (r: Result<u32, StoreError>)
        requires
            is_sql_ident(index@),
        ensures
            match r {
                Ok(n) => n == (if self@.contains_key(index@) {
                    1u32
                } else {
                    0u32
                }),
                Err(e) => e is Other,
            },
    {
        self.conn.query_row(
            "SELECT count(*) FROM sqlite_master WHERE type = 'table' AND name = ?1 COLLATE NOCASE",
            [index],
            |row| row.get::<_, u32>(0),
        ).map_err(|e| StoreError::Other(e.to_string()))
    }

    /// Relies on `rusqlite::Connection::query_row` counting the index's
    /// rows with the given key: the key column is the primary key, so the
    /// count is 1 when the key is present and 0 when it is not. Querying a
    /// missing table cannot succeed; SQLite reports it as "no such table",
    /// mapped to `NoIndex` here. A read; the store is unchanged.
    #[verifier::external_body]
    pub(crate) fn raw_count_key(&self, index: &str, key: &str) -> (r: Result<u32, StoreError>)
        requires
            is_sql_ident(index@),
        ensures
            !self@.contains_key(index@) ==> r is Err,
            match r {
                Ok(n) => self@.contains_key(index@) && n == (if self@[index@].contains_key(key@) {
                    1u32
                } else {
                    0u32
                }),
                Err(e) => !(e is DuplicateKey) && (e is NoIndex ==> !self@.contains_key(index@)),
            },
    {
        let sql = format!("SELECT count(*) FROM `{index}` WHERE `key` = ?1");
        self.conn.query_row(&sql, [key], |row| row.get::<_, u32>(0)).map_err(
            |e| match e {
                rusqlite::Error::SqliteFailure(_, Some(m)) if m.starts_with("no such table") => {
                    StoreError::NoIndex
                },
                other => StoreError::Other(other.to_string()),
            },
        )
    }

    /// Relies on `rusqlite::Connection::execute` running `INSERT`: adds
    /// the row when the index exists and the key is new. The key column is
    /// the primary key, so inserting a key the index already holds cannot
    /// succeed — SQLite refuses it with its primary-key constraint
    /// report, and only that report is mapped to `DuplicateKey`; any
    /// other constraint an outside writer's table might carry stays an
    /// `Other`. Inserting into a missing index cannot succeed either
    /// ("no such table", mapped to `NoIndex`). A single statement either
    /// takes effect or leaves the store as it was.
    #[verifier::external_body]
    pub(crate) fn raw_insert(&mut self, index: &str, key: &str, data: &str) -> (r: Result<
        (),
        StoreError,
    >)
        requires
            is_sql_ident(index@),
        ensures
            !old(self)@.contains_key(index@) ==> r is Err,
            old(self)@.contains_key(index@) && old(self)@[index@].contains_key(key@) ==> r is Err,
            match r {
                Ok(()) => old(self)@.contains_key(index@) && !old(self)@[index@].contains_key(key@)
                    && final(self)@ == old(self)@.insert(
                    index@,
                    old(self)@[index@].insert(key@, data@),
                ),
                Err(e) => final(self)@ == old(self)@ && (e is NoIndex ==> !old(
                    self,
                )@.contains_key(index@)) && (e is DuplicateKey ==> old(self)@.contains_key(index@)
                    && old(self)@[index@].contains_key(key@)),
            },
    {
        let sql = format!("INSERT INTO `{index}` (`key`, `data`) VALUES (?1, ?2)");
        self.conn.execute(&sql, [key, data]).map(|_| ()).map_err(
            |e| match e {
                rusqlite::Error::SqliteFailure(f, m) => {
                    if f.extended_code == rusqlite::ffi::SQLITE_CONSTRAINT_PRIMARYKEY {
                        StoreError::DuplicateKey
                    } else if m.as_deref().is_some_and(|t| t.starts_with("no such table")) {
                        StoreError::NoIndex
                    } else {
                        StoreError::Other(rusqlite::Error::SqliteFailure(f, m).to_string())
                    }
                },
                other => StoreError::Other(other.to_string()),
            },
        )
    }

    /// Relies on `rusqlite::Connection::execute` running `UPDATE` on the
    /// row matching the key, and on the row count SQLite reports back:
    /// 1 when a row matched and now holds the new data, 0 when none did.
    /// Updating a missing index cannot succeed ("no such table", mapped to
    /// `NoIndex`). A single statement either takes effect or leaves the
    /// store as it was.
    #[verifier::external_body]
    pub(crate) fn raw_update(&mut self, index: &str, key: &str, data: &str) -> (r: Result<
        usize,
        StoreError,
    >)
        requires
            is_sql_ident(index@),
        ensures
            !old(self)@.contains_key(index@) ==> r is Err,
            match r {
                Ok(n) => old(self)@.contains_key(index@) && (if old(self)@[index@].contains_key(
                    key@,
                ) {
                    n == 1 && final(self)@ == old(self)@.insert(
                        index@,
                        old(self)@[index@].insert(key@, data@),
                    )
                } else {
                    n == 0 && final(self)@ == old(self)@
                }),
                Err(e) => final(self)@ == old(self)@ && !(e is DuplicateKey) && (e is NoIndex
                    ==> !old(self)@.contains_key(index@)),
            },
    {
        let sql = format!("UPDATE `{index}` SET `data` = ?1 WHERE `key` = ?2");
        self.conn.execute(&sql, [data, key]).map_err(
            |e| match e {
                rusqlite::Error::SqliteFailure(_, Some(m)) if m.starts_with("no such table") => {
                    StoreError::NoIndex
                },
                other => StoreError::Other(other.to_string()),
            },
        )
    }

    /// Relies on `rusqlite::Connection::execute` running `DELETE` on the
    /// row matching the key, and on the row count SQLite reports back:
    /// 1 when a row matched and is gone, 0 when none did. Deleting from a
    /// missing index cannot succeed ("no such table", mapped to
    /// `NoIndex`). A single statement either takes effect or leaves the
    /// store as it was.
    #[verifier::external_body]
    pub(crate) fn raw_delete(&mut self, index: &str, key: &str) -> (r: Result<usize, StoreError>)
        requires
            is_sql_ident(index@),
        ensures
            !old(self)@.contains_key(index@) ==> r is Err,
            match r {
                Ok(n) => old(self)@.contains_key(index@) && (if old(self)@[index@].contains_key(
                    key@,
                ) {
                    n == 1 && final(self)@ == old(self)@.insert(
                        index@,
                        old(self)@[index@].remove(key@),
                    )
                } else {
                    n == 0 && final(self)@ == old(self)@
                }),
                Err(e) => final(self)@ == old(self)@ && !(e is DuplicateKey) && (e is NoIndex
                    ==> !old(self)@.contains_key(index@)),
            },
    {
        let sql = format!("DELETE FROM `{index}` WHERE `key` = ?1");
        self.conn.execute(&sql, [key]).map_err(
            |e| match e {
                rusqlite::Error::SqliteFailure(_, Some(m)) if m.starts_with("no such table") => {
                    StoreError::NoIndex
                },
                other => StoreError::Other(other.to_string()),
            },
        )
    }

    /// Relies on `rusqlite::Connection::execute` running
    /// `DROP TABLE IF EXISTS`: afterwards the index is gone, and the call
    /// succeeds whether or not it was there. A single statement either
    /// takes effect or leaves the store as it was.
    #[verifier::external_body]
    pub(crate) fn raw_drop(&mut self, index: &str) -> (r: Result<(), StoreError>)
        requires
            is_sql_ident(index@),
        ensures
            match r {
                Ok(()) => final(self)@ == old(self)@.remove(index@),
                Err(e) => final(self)@ == old(self)@ && e is Other,
            },
    {
        let sql = format!("DROP TABLE IF EXISTS `{index}`");
        self.conn.execute(&sql, []).map(|_| ()).map_err(|e| StoreError::Other(e.to_string()))
    }

    /// Drops and re-creates the index's table, and says whether it was
    /// freshly created (`true`) or reset (`false`). Running it twice in a
    /// row ends in the same empty table either way.
    pub fn reset(&mut self, index: &str) -> (r: Result<bool, StoreError>)
        requires
            is_sql_ident(index@),
        ensures
            match r {
                Ok(fresh) => fresh == !old(self)@.contains_key(index@) && final(self)@ == old(
                    self,
                )@.insert(index@, Map::<Seq<char>, Seq<char>>::empty()),
                Err(e) => (final(self)@ == old(self)@ || final(self)@ == old(self)@.remove(
                    index@,
                )) && e is Other,
            },
    {
        let had = match self.raw_table_count(index) {
            Ok(n) => n > 0,
            Err(e) => {
                return Err(e);
            },
        };
        match self.raw_reset(index) {
            Ok(()) => Ok(!had),
            Err(e) => Err(e),
        }
    }

    /// Loads `records` into the index, in order: each record's key is the
    /// string it holds at `key_field`, its data the record serialized
    /// back to JSON. The batch stops at the first record that cannot be
    /// loaded — one without a string at `key_field`, or one whose key is
    /// already bound, by the index or by an earlier record — and the
    /// contract pins that position; what stood before the stop stays
    /// loaded.
    pub fn bulk_load(
        &mut self,
        index: &str,
        key_field: &str,
        records: &Vec<serde_json::Map<String, Value>>,
    ) -> (r: Result<usize, CmdError>)
        requires
            is_sql_ident(index@),
            old(self)@.contains_key(index@),
        ensures
            ({
                let t0 = old(self)@[index@];
                match r {
                    Ok(n) => n == records@.len() && keys_present(records@, key_field@)
                        && load_stop(t0, records@, key_field@, 0) == records@.len()
                        && final(self)@ == old(self)@.insert(
                        index@,
                        loaded(t0, records@, key_field@),
                    ),
                    Err(e) => match e {
                        CmdError::ParseFailed { detail } => detail@
                            == "a record is missing the key field"@ && load_keyless_post(
                            old(self)@,
                            final(self)@,
                            index@,
                            t0,
                            records@,
                            key_field@,
                        ),
                        CmdError::StoreFailed { err } => load_failed_post(
                            old(self)@,
                            final(self)@,
                            index@,
                            t0,
                            records@,
                            key_field@,
                            err,
                        ),
                        _ => false,
                    },
                }
            }),
    {
        let ghost t0 = self@[index@];
        let n = records.len();
        let mut i: usize = 0;
        while i < n
            invariant
                is_sql_ident(index@),
                i <= n,
                n == records@.len(),
                t0 == old(self)@[index@],
                old(self)@.contains_key(index@),
                keys_present(records@.take(i as int), key_field@),
                forall|j: int| 0 <= j < i ==> !load_fails_at(t0, records@, key_field@, j),
                self@ == old(self)@.insert(index@, loaded(t0, records@.take(i as int), key_field@)),
            decreases n - i,
        {
            let rec = &records[i];
            let key = match obj_get_string(rec, key_field) {
                Some(k) => k,
                None => {
                    proof {
                        lemma_load_stop_from(t0, records@, key_field@, i as int);
                        assert(load_fails_at(t0, records@, key_field@, i as int));
                        assert(load_stop(t0, records@, key_field@, i as int) == i as int);
                    }
                    return Err(
                        CmdError::ParseFailed {
                            detail: String::from_str("a record is missing the key field"),
                        },
                    );
                },
            };
            let data = match obj_to_json(rec) {
                Ok(d) => d,
                Err(detail) => {
                    proof {
                        lemma_load_stop_from(t0, records@, key_field@, i as int);
                        lemma_load_stop_ge(t0, records@, key_field@, i as int);
                    }
                    return Err(
                        CmdError::StoreFailed {
                            err: StoreError::Other(
                                String::from_str("could not serialize a record: ").concat(
                                    detail.as_str(),
                                ),
                            ),
                        },
                    );
                },
            };
            match self.raw_insert(index, key.as_str(), data.as_str()) {
                Ok(()) => {
                    proof {
                        assert(records@.take(i as int + 1).drop_last() =~= records@.take(i as int));
                        assert(records@.take(i as int + 1).last() == records@[i as int]);
                        assert(!load_fails_at(t0, records@, key_field@, i as int));
                        assert(self@ =~= old(self)@.insert(
                            index@,
                            loaded(t0, records@.take(i as int + 1), key_field@),
                        ));
                        assert(forall|j: int|
                            0 <= j < i + 1 ==> records@.take(i as int + 1)[j] == records@[j]);
                    }
                },
                Err(err) => {
                    proof {
                        lemma_load_stop_from(t0, records@, key_field@, i as int);
                        lemma_load_stop_ge(t0, records@, key_field@, i as int);
                        if err is DuplicateKey {
                            assert(load_fails_at(t0, records@, key_field@, i as int));
                            assert(load_stop(t0, records@, key_field@, i as int) == i as int);
                        }
                    }
                    return Err(CmdError::StoreFailed { err });
                },
            }
            i += 1;
        }
        proof {
            lemma_load_stop_from(t0, records@, key_field@, n as int);
            assert(records@.take(n as int) =~= records@);
        }
        Ok(n)
    }

    /// Whether the index holds a row with this key.
    pub fn contains_entry(&self, index: &str, key: &str) -> (r: Result<bool, StoreError>)
        requires
            is_sql_ident(index@),
        ensures
            !self@.contains_key(index@) ==> r is Err,
            match r {
                Ok(b) => self@.contains_key(index@) && b == self@[index@].contains_key(key@),
                Err(e) => !(e is DuplicateKey) && (e is NoIndex ==> !self@.contains_key(index@)),
            },
    {
        match self.raw_count_key(index, key) {
            Ok(n) => Ok(n > 0),
            Err(e) => Err(e),
        }
    }
}

} // verus!
