use vstd::prelude::*;

verus! {

/// A stored user record: the store-assigned id, the unique username, and the
/// encoded password hash. The hash is never the plaintext password.
pub struct User {
    pub id: i32,
    pub username: String,
    pub password_hash: String,
}

/// The mathematical image of a stored user record.
pub struct UserV {
    pub id: int,
    pub username: Seq<char>,
    pub password_hash: Seq<char>,
}

impl View for User {
    type V = UserV;

    open spec fn view(&self) -> UserV {
        UserV {
            id: self.id as int,
            username: self.username@,
            password_hash: self.password_hash@,
        }
    }
}

impl User {
    /// A field-for-field copy of the record.
    pub fn clone_record(&self) -> (r: User)
        ensures
            r@ == self@,
    {
        User {
            id: self.id,
            username: self.username.clone(),
            password_hash: self.password_hash.clone(),
        }
    }
}

/// The transient credential a client submits to register or log in; the
/// plaintext password lives only for the duration of the call.
pub struct NewUser {
    pub username: String,
    pub password: String,
}

/// What registration hands to the store: the username and the already
/// encoded password hash.
pub struct UserForInsert {
    pub username: String,
    pub password_hash: String,
}

/// The assertions carried inside a signed token: the subject (a username)
/// and the absolute expiry timestamp in whole seconds.
pub struct Claims {
    pub sub: String,
    pub exp: u64,
}

} // verus!
