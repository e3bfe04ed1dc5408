//! The authenticated user behind a request.

use vstd::prelude::*;

verus! {

/// An authenticated user, as established from a Firebase ID token.
#[derive(Debug)]
pub struct Claims {
    /// Firebase UID (the token's `sub`).
    pub uid: String,
    pub sub: String,
    pub email: Option<String>,
    /// The custom claim `admin`.
    pub admin: bool,
}

impl Clone for Claims {
    fn clone(&self) -> (c: Self)
        ensures
            c == *self,
    {
        Claims {
            uid: self.uid.clone(),
            sub: self.sub.clone(),
            email: self.email.clone(),
            admin: self.admin,
        }
    }
}

impl Claims {
    /// Claims for the user `uid`; `sub` repeats the UID.
    pub fn from_firebase(uid: &str, email: Option<String>, admin: bool) -> (c: Claims)
        ensures
            c.uid@ == uid@,
            c.sub@ == uid@,
            c.email == email,
            c.admin == admin,
    {
        Claims { uid: uid.to_owned(), sub: uid.to_owned(), email, admin }
    }

    /// Same as `from_firebase`.
    pub fn new(uid: &str, email: Option<String>, admin: bool) -> (c: Claims)
        ensures
            c.uid@ == uid@,
            c.sub@ == uid@,
            c.email == email,
            c.admin == admin,
    {
        Self::from_firebase(uid, email, admin)
    }

    /// Whether the user carries the `admin` claim.
    pub fn is_admin(&self) -> (b: bool)
        ensures
            b == self.admin,
    {
        self.admin
    }
}

} // verus!
