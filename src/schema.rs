//! The store that the data actor owns, and the migrator that brings its
//! schema to the current version.
//!
//! The store holds a version table (absent, or holding one version number) and
//! the address-history table (absent, or holding a history).
use vstd::prelude::*;
use crate::history::{after_use, matching, valid_history, PrevIpTable};

verus! {

/// The schema version that this library writes and reads.
pub const CURRENT_VERSION: usize = 1;

/// A failure of the store.
#[derive(Debug, Clone, Copy, PartialEq, Eq, Structural)]
pub enum StoreError {
    /// The version table does not exist.
    MissingVersionTable,
    /// The address-history table does not exist.
    MissingHistoryTable,
}

/// The version table (if it exists, the version it holds) and the
/// address-history table (if it exists, its addresses, most recent first).
pub type StoreView = (Option<usize>, Option<Seq<Seq<char>>>);

/// The relational store: the version table and the address-history table.
pub struct Store {
    version_table: Option<usize>,
    prev_ip: Option<PrevIpTable>,
}

/// The version a store reports: 0 without a version table.
pub open spec fn version_of(m: StoreView) -> usize {
    match m.0 {
        Some(v) => v,
        None => 0,
    }
}

/// The store after schema setup. At version 0 both tables are created where
/// missing (an existing history is kept) and the version becomes current; a
/// store at a later version is left as it is.
pub open spec fn migrated(m: StoreView) -> StoreView {
    if version_of(m) == 0 {
        (Some(CURRENT_VERSION), Some(
            match m.1 {
                Some(l) => l,
                None => Seq::<Seq<char>>::empty(),
            },
        ))
    } else {
        m
    }
}

/// A store whose history table, if it exists, is a valid history.
pub open spec fn valid_store(m: StoreView) -> bool {
    m.1 matches Some(l) ==> valid_history(l)
}

impl View for Store {
    type V = StoreView;

    closed spec fn view(&self) -> StoreView {
        (self.version_table, match self.prev_ip {
            Some(t) => Some(t@),
            None => None,
        })
    }
}

impl Store {
    /// A stored history table is well formed.
    pub closed spec fn wf(&self) -> bool {
        self.prev_ip matches Some(t) ==> t.wf()
    }

    /// A well-formed store is a valid one.
    pub proof fn lemma_wf_valid(&self)
        requires
            self.wf(),
        ensures
            valid_store(self@),
    {
        if let Some(t) = self.prev_ip {
            t.lemma_wf_history();
        }
    }

    /// An empty store: no tables at all.
    pub fn new() -> (s: Self)
        ensures
            s.wf(),
            s@ == (None::<usize>, None::<Seq<Seq<char>>>),
    {
        Store { version_table: None, prev_ip: None }
    }

    /// The address-history table, if it exists.
    pub fn history(&self) -> (r: Option<&PrevIpTable>)
        requires
            self.wf(),
        ensures
            self@.1 is None ==> r is None,
            self@.1 matches Some(l) ==> (r matches Some(t) && t@ == l && t.wf()),
    {
        match &self.prev_ip {
            Some(t) => Some(t),
            None => None,
        }
    }

    /// The addresses that contain `pattern`, most recently used first.
    pub fn get_prev_ips(&self, pattern: &String) -> (r: Result<Vec<String>, StoreError>)
        requires
            self.wf(),
        ensures
            self@.1 is None ==> r == Err::<Vec<String>, StoreError>(StoreError::MissingHistoryTable),
            self@.1 matches Some(l) ==> (r matches Ok(v) && v@.map_values(|s: String| s@) == matching(
                l,
                pattern@,
            )),
    {
        match &self.prev_ip {
            Some(t) => Ok(t.get_prev_ips(pattern)),
            None => Err(StoreError::MissingHistoryTable),
        }
    }

    /// Records a use of `ip` in the address history and returns `ip`.
    pub fn add_prev_ip(&mut self, ip: String) -> (r: Result<String, StoreError>)
        requires
            old(self).wf(),
        ensures
            final(self).wf(),
            old(self)@.1 is None ==> r == Err::<String, StoreError>(StoreError::MissingHistoryTable)
                && final(self)@ == old(self)@,
            old(self)@.1 matches Some(l) ==> (r matches Ok(s) && s@ == ip@) && final(self)@ == (
            old(self)@.0, Some(after_use(l, ip@))),
    {
        match &mut self.prev_ip {
            Some(t) => Ok(t.add_prev_ip(ip)),
            None => Err(StoreError::MissingHistoryTable),
        }
    }
}

/// The stored schema version: 0 when there is no version table.
pub fn get_db_version(db: &Store) -> (v: usize)
    ensures
        v == version_of(db@),
{
    match db.version_table {
        Some(v) => v,
        None => 0,
    }
}

/// Creates the version table, holding version 0, unless it exists.
pub fn make_version_table(db: &mut Store)
    requires
        old(db).wf(),
    ensures
        final(db).wf(),
        final(db)@.1 == old(db)@.1,
        final(db)@.0 == match old(db)@.0 {
            Some(v) => Some(v),
            None => Some(0usize),
        },
{
    if db.version_table.is_none() {
        db.version_table = Some(0);
    }
}

/// Writes `ver` as the stored schema version.
pub fn update_db_version(ver: usize, db: &mut Store) -> (r: Result<(), StoreError>)
    requires
        old(db).wf(),
    ensures
        final(db).wf(),
        r == if old(db)@.0 is None {
            Err::<(), StoreError>(StoreError::MissingVersionTable)
        } else {
            Ok(())
        },
        old(db)@.0 is None ==> final(db)@ == old(db)@,
        old(db)@.0 is Some ==> final(db)@ == (Some(ver), old(db)@.1),
{
    match db.version_table {
        Some(_) => {
            db.version_table = Some(ver);
            Ok(())
        },
        None => Err(StoreError::MissingVersionTable),
    }
}

/// Creates the address-history table, empty, unless it exists.
pub fn prev_ip_create(db: &mut Store)
    requires
        old(db).wf(),
    ensures
        final(db).wf(),
        final(db)@.0 == old(db)@.0,
        final(db)@.1 == match old(db)@.1 {
            Some(l) => Some(l),
            None => Some(Seq::<Seq<char>>::empty()),
        },
{
    if db.prev_ip.is_none() {
        db.prev_ip = Some(PrevIpTable::new());
    }
}

/// The step to version 1: the address-history table, then the version.
pub fn update_v1(db: &mut Store) -> (r: Result<(), StoreError>)
    requires
        old(db).wf(),
    ensures
        final(db).wf(),
        r == if old(db)@.0 is None {
            Err::<(), StoreError>(StoreError::MissingVersionTable)
        } else {
            Ok(())
        },
        final(db)@.1 == match old(db)@.1 {
            Some(l) => Some(l),
            None => Some(Seq::<Seq<char>>::empty()),
        },
        final(db)@.0 == match old(db)@.0 {
            Some(_) => Some(1usize),
            None => None::<usize>,
        },
{
    prev_ip_create(db);
    update_db_version(1, db)
}

/// Brings the schema to the current version: at version 0 it creates the
/// version table and runs the step to version 1; otherwise it changes nothing.
/// It does not fail.
pub fn check_db(db: &mut Store) -> (r: Result<(), StoreError>)
    requires
        old(db).wf(),
    ensures
        final(db).wf(),
        r is Ok,
        final(db)@ == migrated(old(db)@),
{
    let version = get_db_version(db);
    if version == 0 {
        make_version_table(db);
        match update_v1(db) {
            Ok(()) => {},
            Err(e) => {
                return Err(e);
            },
        }
    }
    Ok(())
}

/// Schema setup on a store that is already set up changes nothing: running it
/// twice is running it once. It never lowers the version, and leaves it current
/// or later.
pub proof fn lemma_migration_idempotent(m: StoreView)
    ensures
        migrated(migrated(m)) == migrated(m),
        version_of(migrated(m)) >= version_of(m),
        version_of(migrated(m)) >= CURRENT_VERSION,
{
}

} // verus!
