//! The credential and session store: durable state behind a narrow
//! operation set.  `MemoryStorage` is the concrete store; all other
//! components touch users and sessions only through its operations.

pub mod error;
pub mod memory;
pub mod session;
pub mod user;

use vstd::prelude::*;

use crate::storage::error::StorageError;
use crate::storage::memory::MemoryStorage;

verus! {

/// Create the schema for both tables.  Idempotent: a second call leaves
/// the store exactly as the first left it, and neither call errors.
pub fn setup(store: &mut MemoryStorage) -> (r: Result<(), StorageError>)
    ensures
        r is Ok,
        final(store)@ == old(store)@.with_ready(),
{
    store.setup_users();
    store.setup_sessions();
    Ok(())
}

/// Law (setup idempotence): setting the schema up a second time
/// leaves the store exactly as the first call left it — no error and
/// no duplicated rows.
pub proof fn lemma_setup_idempotent(s: crate::storage::memory::StoreView)
    ensures
        s.with_ready().with_ready() == s.with_ready(),
        s.with_ready().users == s.users,
        s.with_ready().sessions == s.sessions,
{
    assert(s.with_ready().with_ready() =~= s.with_ready());
}

} // verus!
