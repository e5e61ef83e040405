use vstd::prelude::*;

verus! {

/// Outcome of a store operation that did not succeed.
#[derive(Clone, Copy, Debug, PartialEq, Eq, Structural)]
pub enum StorageError {
    /// A uniqueness constraint (user email or session token) would be
    /// violated by the write.
    Conflict,
    /// The persistence backend failed, including operations attempted
    /// before the schema was set up.
    Backend,
    /// The backend accepted an insert but reported no identifier for
    /// the new row.
    NoLastInsertId,
    /// The password could not be hashed.
    PasswordHashing,
}

pub type StorageResult<T> = Result<T, StorageError>;

} // verus!
