//! Users: registered principals, identified for login by their email,
//! which the store keeps and compares in lowercase.

use vstd::prelude::*;

verus! {

pub type UserId = i64;

/// The Unicode lowercase mapping that `str::to_lowercase` computes; it
/// depends on the characters of the input alone.
pub uninterp spec fn lower_of(s: Seq<char>) -> Seq<char>;

/// Relies on `str::to_lowercase` (std): returns the lowercase
/// equivalent of the input, a pure function of its characters.
#[verifier::external_body]
pub(crate) fn to_lowercase(s: &str) -> (r: String)
    ensures
        r@ == lower_of(s@),
        s@.len() == 0 ==> r@.len() == 0,
{
    s.to_lowercase()
}

/// A stored user row.
#[derive(Debug)]
pub struct User {
    /// Assigned by the store, immutable once created.
    pub id: UserId,
    /// Stored lowercased; unique across all users.
    pub email: String,
    /// Optional display name; no uniqueness constraint.
    pub username: Option<String>,
    /// Self-describing password-hash string (PHC format); never a
    /// plaintext password.
    pub password_hash: String,
    /// Creation time in seconds, set by the store.
    pub created_at: i64,
}

/// Spec-level image of a `User`.
#[verifier::ext_equal]
pub ghost struct UserView {
    pub id: i64,
    pub email: Seq<char>,
    pub username: Option<Seq<char>>,
    pub password_hash: Seq<char>,
    pub created_at: i64,
}

impl View for User {
    type V = UserView;

    open spec fn view(&self) -> UserView {
        UserView {
            id: self.id,
            email: self.email@,
            username: self.username.deep_view(),
            password_hash: self.password_hash@,
            created_at: self.created_at,
        }
    }
}

impl DeepView for User {
    type V = UserView;

    open spec fn deep_view(&self) -> UserView {
        self.view()
    }
}

/// A user as handed to the registration flow, before it is hashed and
/// stored.
pub struct NewUser {
    pub email: String,
    pub username: Option<String>,
    pub password: String,
}

} // verus!
