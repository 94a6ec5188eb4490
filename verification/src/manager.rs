//! The connection manager: one lazily-created database handle per manager,
//! opened on first acquisition and shared for the life of the value.
//!
//! Callers that must share a manager across threads put it behind a
//! mutual-exclusion lock; acquisition itself is idempotent, so however the
//! calls interleave, at most one file-open ever succeeds.

use vstd::prelude::*;
use crate::errors::DbError;
use crate::sqlite::open_connection;
use crate::sqlite::error_text;

verus! {

/// Owns the storage path and the lazily-created connection handle.
///
/// A ghost counter records how many file-open operations have succeeded on
/// this manager; the type invariant ties the counter to the handle, so a
/// handle exists exactly when one open has succeeded.
pub struct ConnectionManager {
    path: String,
    conn: Option<rusqlite::Connection>,
    opens: Ghost<nat>,
}

impl ConnectionManager {
    /// Whether the handle has been created.
    pub closed spec fn is_open(self) -> bool {
        self.conn is Some
    }

    /// How many file-open operations have succeeded on this manager.
    pub closed spec fn opens(self) -> nat {
        self.opens@
    }

    /// The path of the storage file.
    pub closed spec fn path_view(self) -> Seq<char> {
        self.path@
    }

    /// A handle exists exactly when one open has succeeded.
    #[verifier::type_invariant]
    spec fn wf(self) -> bool {
        self.opens@ == if self.conn is Some { 1nat } else { 0nat }
    }

    /// A manager for the storage file at `path`: no handle yet, no opens.
    pub fn new(path: String) -> (m: ConnectionManager)
        ensures
            !m.is_open(),
            m.opens() == 0,
            m.path_view() == path@,
    {
        ConnectionManager { path, conn: None, opens: Ghost(0nat) }
    }

    /// Returns a usable handle, opening the storage file on first use.
    ///
    /// Acquisition is idempotent: once a handle exists, later calls return
    /// it without another open, so over any sequence of calls at most one
    /// open succeeds. A failed open leaves the manager unchanged and is
    /// reported as `StorageUnavailable`.
    pub fn acquire(&mut self) -> (r: Result<&rusqlite::Connection, DbError>)
        ensures
            final(self).path_view() == old(self).path_view(),
            final(self).opens() <= 1,
            final(self).is_open() == (final(self).opens() == 1),
            old(self).is_open() ==> final(self).is_open() && final(self).opens() == old(
                self,
            ).opens(),
            r is Ok ==> final(self).is_open(),
            old(self).is_open() ==> r is Ok,
            r is Err ==> final(self).is_open() == old(self).is_open() && final(self).opens()
                == old(self).opens(),
            !old(self).is_open() && r is Ok ==> final(self).opens() == old(self).opens() + 1,
            r matches Err(e) ==> e is StorageUnavailable,
    {
        proof {
            use_type_invariant(&*self);
        }
        if self.conn.is_none() {
            match open_connection(&self.path) {
                Ok(c) => {
                    let ghost n = self.opens@;
                    let mut path = String::new();
                    std::mem::swap(&mut path, &mut self.path);
                    *self = ConnectionManager { path, conn: Some(c), opens: Ghost(n + 1) };
                },
                Err(e) => {
                    return Err(DbError::StorageUnavailable(error_text(&e)));
                },
            }
        }
        Ok(self.conn.as_ref().unwrap())
    }
}

} // verus!
