use vstd::prelude::*;

use crate::auth::TOKEN_TTL_SECONDS;
use crate::auth::claims_of;
use crate::auth::create_token;
use crate::models::NewUser;
use crate::models::User;
use crate::models::UserForInsert;
use crate::models::UserV;
use crate::password::bcrypt_matches;
use crate::password::hash;
use crate::password::verify;
use crate::store::StoreError;
use crate::store::UserStore;
use vstd::string::StringExecFns;

verus! {

/// The outcome of a registration request.
#[derive(Clone, Copy, Debug, PartialEq, Eq, Structural)]
pub enum RegisterResponse {
    /// The record was stored under a fresh id.
    Created,
    /// The username is already taken.
    Conflict,
    /// The hasher or the store itself failed.
    InternalError,
}

impl RegisterResponse {
    /// The status code of the outcome.
    pub open spec fn spec_status(self) -> int {
        match self {
            RegisterResponse::Created => 201,
            RegisterResponse::Conflict => 409,
            RegisterResponse::InternalError => 500,
        }
    }

    /// The status code of the outcome.
    pub fn status(&self) -> (c: u16)
        ensures
            c == self.spec_status(),
    {
        match self {
            RegisterResponse::Created => 201,
            RegisterResponse::Conflict => 409,
            RegisterResponse::InternalError => 500,
        }
    }
}

/// The outcome of a login request.
pub enum LoginResponse {
    /// The credentials were accepted; the client gets a fresh signed token.
    Success(String),
    /// Unknown username or wrong password: deliberately one outcome, so the
    /// response does not reveal which part failed.
    Unauthorized,
    /// An internal failure. `login` itself never produces it (issuance always
    /// succeeds); it completes the response vocabulary for callers that map
    /// other failures onto the same shape.
    InternalError,
}

impl LoginResponse {
    /// The status code of the outcome.
    pub open spec fn spec_status(self) -> int {
        match self {
            LoginResponse::Success(_) => 200,
            LoginResponse::Unauthorized => 401,
            LoginResponse::InternalError => 500,
        }
    }

    /// The status code of the outcome.
    pub fn status(&self) -> (c: u16)
        ensures
            c == self.spec_status(),
    {
        match self {
            LoginResponse::Success(_) => 200,
            LoginResponse::Unauthorized => 401,
            LoginResponse::InternalError => 500,
        }
    }

    /// The response body a client sees: the token on success, and one fixed
    /// generic message for every rejection.
    pub fn body(&self) -> (s: String)
        ensures
            self matches LoginResponse::Success(t) ==> s@ == t@,
            self is Unauthorized ==> s@ == "Invalid username or password"@,
            self is InternalError ==> s@ == "Internal Server Error"@,
    {
        match self {
            LoginResponse::Success(t) => t.clone(),
            LoginResponse::Unauthorized => String::from_str("Invalid username or password"),
            LoginResponse::InternalError => String::from_str("Internal Server Error"),
        }
    }
}

/// The outcome of fetching a user record by id.
pub enum GetUserResponse {
    /// The record with that id.
    Found(User),
    /// No record carries that id.
    NotFound,
}

impl GetUserResponse {
    /// The status code of the outcome.
    pub open spec fn spec_status(self) -> int {
        match self {
            GetUserResponse::Found(_) => 200,
            GetUserResponse::NotFound => 404,
        }
    }

    /// The status code of the outcome.
    pub fn status(&self) -> (c: u16)
        ensures
            c == self.spec_status(),
    {
        match self {
            GetUserResponse::Found(_) => 200,
            GetUserResponse::NotFound => 404,
        }
    }
}

/// The outcome of deleting a user record by id.
#[derive(Clone, Copy, Debug, PartialEq, Eq, Structural)]
pub enum DeleteResponse {
    /// The record existed and is gone.
    Deleted,
    /// No record carries that id.
    NotFound,
}

impl DeleteResponse {
    /// The status code of the outcome.
    pub open spec fn spec_status(self) -> int {
        match self {
            DeleteResponse::Deleted => 200,
            DeleteResponse::NotFound => 404,
        }
    }

    /// The status code of the outcome.
    pub fn status(&self) -> (c: u16)
        ensures
            c == self.spec_status(),
    {
        match self {
            DeleteResponse::Deleted => 200,
            DeleteResponse::NotFound => 404,
        }
    }
}

/// Whether the submitted credentials match a stored record: some record
/// carries the username, and the password verifies against its stored hash.
pub open spec fn spec_authenticated(
    records: Seq<UserV>,
    username: Seq<char>,
    password: Seq<char>,
) -> bool {
    exists|i: int|
        0 <= i < records.len() && #[trigger] records[i].username == username && bcrypt_matches(
            password,
            records[i].password_hash,
        )
}

/// Stores a record whose password is already hashed, enforcing the
/// unique-username constraint.
pub fn register_hashed(store: &mut UserStore, record: UserForInsert) -> (r: RegisterResponse)
    requires
        old(store).wf(),
    ensures
        final(store).wf(),
        r is Created <==> (!old(store).contains_username(record.username@)
            && old(store).spec_next_id() < i32::MAX),
        r is Created ==> final(store)@ =~= old(store)@.push(
            UserV {
                id: old(store).spec_next_id(),
                username: record.username@,
                password_hash: record.password_hash@,
            },
        ),
        r is Conflict <==> old(store).contains_username(record.username@),
        !(r is Created) ==> final(store)@ == old(store)@,
{
    match store.insert(record) {
        Ok(_) => RegisterResponse::Created,
        Err(StoreError::DuplicateUsername) => RegisterResponse::Conflict,
        Err(StoreError::Exhausted) => RegisterResponse::InternalError,
    }
}

/// Registers a user: rejects a duplicate username first, then hashes the
/// submitted password and stores the record. A hasher or store failure is an
/// internal error; the plaintext password is never stored.
pub fn create_user(store: &mut UserStore, user_data: &NewUser) -> (r: RegisterResponse)
    requires
        old(store).wf(),
    ensures
        final(store).wf(),
        r is Created ==> !old(store).contains_username(user_data.username@) && (exists|h: Seq<char>|
            #[trigger] bcrypt_matches(user_data.password@, h) && final(store)@ =~= old(store)@.push(
                UserV {
                    id: old(store).spec_next_id(),
                    username: user_data.username@,
                    password_hash: h,
                },
            )),
        r is Conflict <==> old(store).contains_username(user_data.username@),
        !(r is Created) ==> final(store)@ == old(store)@,
{
    if store.find_by_username(user_data.username.as_str()).is_some() {
        return RegisterResponse::Conflict;
    }
    let hashed = match hash(user_data.password.as_str()) {
        Ok(h) => h,
        Err(_) => {
            return RegisterResponse::InternalError;
        },
    };
    let ghost hashed_view = hashed@;
    let record = UserForInsert { username: user_data.username.clone(), password_hash: hashed };
    let r = register_hashed(store, record);
    proof {
        if r is Created {
            assert(bcrypt_matches(user_data.password@, hashed_view));
        }
    }
    r
}

/// Authenticates a login request: looks the username up, verifies the
/// password against the stored hash, and on success issues a signed token for
/// the username. Matching credentials always yield a token; an unknown
/// username and a wrong password draw the same generic rejection.
pub fn login(store: &UserStore, user_data: &NewUser, secret: &[u8]) -> (r: LoginResponse)
    requires
        store.wf(),
    ensures
        r is Success <==> spec_authenticated(store@, user_data.username@, user_data.password@),
        r is Unauthorized <==> !spec_authenticated(
            store@,
            user_data.username@,
            user_data.password@,
        ),
        r matches LoginResponse::Success(t) ==> (claims_of(t@, secret@) matches Some(p) && p.0
            == user_data.username@ && p.1 >= TOKEN_TTL_SECONDS && t@.len() > 0),
{
    let found = store.find_by_username(user_data.username.as_str());
    let u = match found {
        Some(u) => u,
        None => {
            return LoginResponse::Unauthorized;
        },
    };
    let ghost widx = choose|k: int| 0 <= k < store@.len() && store@[k] == u@;
    if verify(user_data.password.as_str(), u.password_hash.as_str()) {
        proof {
            assert(store@[widx].username == user_data.username@);
            assert(bcrypt_matches(user_data.password@, store@[widx].password_hash));
        }
        match create_token(user_data.username.as_str(), secret) {
            Ok(t) => LoginResponse::Success(t),
            Err(_) => LoginResponse::InternalError,
        }
    } else {
        proof {
            assert forall|j: int|
                0 <= j < store@.len() && #[trigger] store@[j].username
                    == user_data.username@ implies !bcrypt_matches(
                user_data.password@,
                store@[j].password_hash,
            ) by {
                if j != widx {
                    assert(store@[j].username != store@[widx].username);
                }
            }
        }
        LoginResponse::Unauthorized
    }
}

/// Fetches the user record with this id; a miss is a not-found outcome, not
/// an error. The record is returned whole, stored password hash included;
/// whether a client should ever see that field is an open design question,
/// and a hardened deployment may wish to omit it.
pub fn get_user(store: &UserStore, user_id: i32) -> (r: GetUserResponse)
    ensures
        r is NotFound <==> !store.contains_id(user_id as int),
        r matches GetUserResponse::Found(u) ==> u@.id == user_id as int && (exists|i: int|
            0 <= i < store@.len() && store@[i] == u@),
{
    match store.find_by_id(user_id) {
        Some(u) => GetUserResponse::Found(u),
        None => GetUserResponse::NotFound,
    }
}

/// Deletes the user record with this id; a miss is a not-found outcome, not
/// an error.
pub fn delete_user(store: &mut UserStore, user_id: i32) -> (r: DeleteResponse)
    requires
        old(store).wf(),
    ensures
        final(store).wf(),
        r is Deleted <==> old(store).contains_id(user_id as int),
        r is NotFound ==> final(store)@ == old(store)@,
        r is Deleted ==> (exists|i: int|
            0 <= i < old(store)@.len() && #[trigger] old(store)@[i].id == user_id as int
                && final(store)@ =~= old(store)@.remove(i)),
        !final(store).contains_id(user_id as int),
{
    let count = store.delete_by_id(user_id);
    if count > 0 {
        DeleteResponse::Deleted
    } else {
        DeleteResponse::NotFound
    }
}

/// Law: a login attempt with an unknown username and one with a wrong
/// password for a known username are both unauthenticated, so by `login`'s
/// contract each draws the same `Unauthorized` response, which does not say
/// which part failed.
pub proof fn lemma_login_uniform_rejection(
    records: Seq<UserV>,
    unknown_name: Seq<char>,
    pw1: Seq<char>,
    known_name: Seq<char>,
    pw2: Seq<char>,
)
    requires
        forall|i: int| 0 <= i < records.len() ==> #[trigger] records[i].username != unknown_name,
        forall|i: int|
            0 <= i < records.len() && #[trigger] records[i].username == known_name
                ==> !bcrypt_matches(pw2, records[i].password_hash),
    ensures
        !spec_authenticated(records, unknown_name, pw1),
        !spec_authenticated(records, known_name, pw2),
{
}

} // verus!


