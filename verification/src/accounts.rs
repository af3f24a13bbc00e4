//! Accounts and login sessions: the `users` and `logins` relations,
//! signup, and the credential exchange that mints bearer tokens.

use vstd::prelude::*;

use crate::auth::mint_login_token;
use crate::auth::uuid_of;
use crate::errors::ApiError;
use crate::tiers::FREE_TIER_ID;

verus! {

/// Whether bcrypt accepts this password against this hash; a function
/// of the two texts alone.
pub uninterp spec fn bcrypt_matches(password: Seq<char>, hash: Seq<char>) -> bool;

/// The hash texts `bcrypt::hash` can return: well-formed enough that
/// `bcrypt::verify` always has an answer for them.
pub uninterp spec fn bcrypt_hash_wf(hash: Seq<char>) -> bool;

/// Relies on `bcrypt::hash` at the crate's default cost: a fresh,
/// well-formed salted hash that `bcrypt::verify` accepts the password
/// against.
#[verifier::external_body]
fn bcrypt_hash(password: &str) -> (r: Result<String, ()>)
    ensures
        r matches Ok(h) ==> bcrypt_matches(password@, h@) && bcrypt_hash_wf(h@),
{
    match bcrypt::hash(password, bcrypt::DEFAULT_COST) {
        Ok(h) => Ok(h),
        Err(_) => Err(()),
    }
}

/// Relies on `bcrypt::verify`: whether the password matches the hash,
/// a function of the two texts alone, and an `Ok` answer on every
/// well-formed hash (it errors only where the hash text itself cannot
/// be parsed).
#[verifier::external_body]
fn bcrypt_verify(password: &str, hash: &str) -> (r: Result<bool, ()>)
    ensures
        r matches Ok(b) ==> b == bcrypt_matches(password@, hash@),
        bcrypt_hash_wf(hash@) ==> r is Ok,
{
    match bcrypt::verify(password, hash) {
        Ok(b) => Ok(b),
        Err(_) => Err(()),
    }
}

/// One row of the `users` relation.
#[derive(Debug)]
pub struct UserRow {
    pub id: i32,
    pub email: String,
    pub passhash: String,
    pub tier: i32,
}

/// Some row carries this email.
pub open spec fn has_email(rows: Seq<UserRow>, email: Seq<char>) -> bool {
    exists|k: int| 0 <= k < rows.len() && rows[k].email@ == email
}

/// Some row carries this user id.
pub open spec fn has_user(rows: Seq<UserRow>, id: i32) -> bool {
    exists|k: int| 0 <= k < rows.len() && (#[trigger] rows[k]).id == id
}

/// The `users` relation: ids assigned in insertion order, emails
/// unique.
#[derive(Debug)]
pub struct UserTable {
    pub rows: Vec<UserRow>,
    pub next_id: i32,
}

impl UserTable {
    /// Ids are unique and below the allocator; emails are unique.
    pub open spec fn wf(&self) -> bool {
        &&& forall|i: int, j: int|
            0 <= i < j < self.rows@.len() ==> self.rows@[i].id != self.rows@[j].id
                && self.rows@[i].email@ != self.rows@[j].email@
        &&& forall|i: int| 0 <= i < self.rows@.len() ==> #[trigger] self.rows@[i].id < self.next_id
    }

    /// An empty relation; the first account gets id 1.
    pub fn new() -> (t: UserTable)
        ensures
            t.wf(),
            t.rows@.len() == 0,
            t.next_id == 1,
    {
        UserTable { rows: Vec::new(), next_id: 1 }
    }

    /// The id and password hash of the account with this email.
    pub fn find_by_email(&self, email: &str) -> (r: Option<(i32, String)>)
        ensures
            match r {
                Some(p) => exists|k: int|
                    0 <= k < self.rows@.len() && (#[trigger] self.rows@[k]).email@ == email@
                        && p.0 == self.rows@[k].id && p.1@ == self.rows@[k].passhash@,
                None => !has_email(self.rows@, email@),
            },
    {
        let n = self.rows.len();
        let mut i: usize = 0;
        while i < n
            invariant
                i <= n,
                n == self.rows@.len(),
                forall|j: int| 0 <= j < i ==> (#[trigger] self.rows@[j]).email@ != email@,
            decreases n - i,
        {
            if crate::paths::str_eq(self.rows[i].email.as_str(), email) {
                let row = &self.rows[i];
                return Some((row.id, row.passhash.clone()));
            }
            i += 1;
        }
        None
    }

    /// The account with this id.
    pub fn find_by_id(&self, id: i32) -> (r: Option<&UserRow>)
        ensures
            match r {
                Some(row) => exists|k: int|
                    0 <= k < self.rows@.len() && (#[trigger] self.rows@[k]).id == id && *row
                        == self.rows@[k],
                None => forall|k: int|
                    0 <= k < self.rows@.len() ==> (#[trigger] self.rows@[k]).id != id,
            },
    {
        let n = self.rows.len();
        let mut i: usize = 0;
        while i < n
            invariant
                i <= n,
                n == self.rows@.len(),
                forall|j: int| 0 <= j < i ==> (#[trigger] self.rows@[j]).id != id,
            decreases n - i,
        {
            if self.rows[i].id == id {
                return Some(&self.rows[i]);
            }
            i += 1;
        }
        None
    }

    /// Inserts a fresh account on the free tier.  A duplicate email
    /// violates the relation's uniqueness and surfaces as the opaque
    /// internal error, with the relation unchanged.
    pub fn insert_user(&mut self, email: String, passhash: String) -> (r: Result<i32, ApiError>)
        requires
            old(self).wf(),
            old(self).next_id < i32::MAX,
        ensures
            final(self).wf(),
            has_email(old(self).rows@, email@) ==> (r matches Err(e) && e matches
                ApiError::Internal(_)) && final(self).rows@ == old(self).rows@ && final(self).next_id
                == old(self).next_id,
            !has_email(old(self).rows@, email@) ==> r == Ok::<i32, ApiError>(old(self).next_id)
                && final(self).rows@ == old(self).rows@.push(
                UserRow {
                    id: old(self).next_id,
                    email: email,
                    passhash: passhash,
                    tier: FREE_TIER_ID,
                },
            ) && final(self).next_id == old(self).next_id + 1,
    {
        if self.find_by_email(email.as_str()).is_some() {
            return Err(ApiError::internal(String::from_str("users.email unique violation")));
        }
        let id = self.next_id;
        self.rows.push(UserRow { id, email, passhash, tier: FREE_TIER_ID });
        self.next_id = self.next_id + 1;
        Ok(id)
    }
}

/// One row of the `logins` relation: an active bearer session.
#[derive(Debug)]
pub struct LoginRow {
    pub token: u128,
    pub user_id: i32,
    pub created_at: i64,
}

/// Some session carries this token.
pub open spec fn has_token(rows: Seq<LoginRow>, token: u128) -> bool {
    exists|k: int| 0 <= k < rows.len() && rows[k].token == token
}

/// The `logins` relation: tokens unique; no expiry is enforced here.
#[derive(Debug)]
pub struct LoginTable {
    pub rows: Vec<LoginRow>,
}

impl LoginTable {
    /// Tokens are unique.
    pub open spec fn wf(&self) -> bool {
        forall|i: int, j: int|
            0 <= i < j < self.rows@.len() ==> self.rows@[i].token != self.rows@[j].token
    }

    /// An empty relation.
    pub fn new() -> (t: LoginTable)
        ensures
            t.wf(),
            t.rows@.len() == 0,
    {
        LoginTable { rows: Vec::new() }
    }

    /// The owner of this token's session, if the token is active.
    pub fn lookup(&self, token: u128) -> (r: Option<i32>)
        ensures
            match r {
                Some(uid) => exists|k: int|
                    0 <= k < self.rows@.len() && (#[trigger] self.rows@[k]).token == token && uid
                        == self.rows@[k].user_id,
                None => !has_token(self.rows@, token),
            },
    {
        let n = self.rows.len();
        let mut i: usize = 0;
        while i < n
            invariant
                i <= n,
                n == self.rows@.len(),
                forall|j: int| 0 <= j < i ==> (#[trigger] self.rows@[j]).token != token,
            decreases n - i,
        {
            if self.rows[i].token == token {
                return Some(self.rows[i].user_id);
            }
            i += 1;
        }
        None
    }

    /// Records a fresh session.  A duplicate token violates the
    /// relation's uniqueness and surfaces as the opaque internal
    /// error, with the relation unchanged.
    pub fn insert(&mut self, token: u128, user_id: i32, created_at: i64) -> (r: Result<
        (),
        ApiError,
    >)
        requires
            old(self).wf(),
        ensures
            final(self).wf(),
            has_token(old(self).rows@, token) ==> (r matches Err(e) && e matches
                ApiError::Internal(_)) && final(self).rows@ == old(self).rows@,
            !has_token(old(self).rows@, token) ==> r == Ok::<(), ApiError>(()) && final(self).rows@
                == old(self).rows@.push(LoginRow { token, user_id, created_at }),
    {
        if self.lookup(token).is_some() {
            return Err(ApiError::internal(String::from_str("logins.token unique violation")));
        }
        self.rows.push(LoginRow { token, user_id, created_at });
        Ok(())
    }
}

/// Signs an account up: hashes the password and inserts the row.  On
/// success the new row carries the allocated id, the email, the free
/// tier, and a hash that bcrypt accepts the password against; on any
/// failure the relation is unchanged, and a taken email always fails.
pub fn signup(users: &mut UserTable, email: String, password: &str) -> (r: Result<i32, ApiError>)
    requires
        old(users).wf(),
        old(users).next_id < i32::MAX,
    ensures
        final(users).wf(),
        r matches Ok(id) ==> ({
            &&& id == old(users).next_id
            &&& !has_email(old(users).rows@, email@)
            &&& final(users).rows@.len() == old(users).rows@.len() + 1
            &&& forall|i: int|
                0 <= i < old(users).rows@.len() ==> final(users).rows@[i] == old(users).rows@[i]
            &&& final(users).rows@.last().id == id
            &&& final(users).rows@.last().email@ == email@
            &&& final(users).rows@.last().tier == FREE_TIER_ID
            &&& bcrypt_matches(password@, final(users).rows@.last().passhash@)
            &&& bcrypt_hash_wf(final(users).rows@.last().passhash@)
            &&& final(users).next_id == old(users).next_id + 1
        }),
        r is Err ==> final(users).rows@ == old(users).rows@ && final(users).next_id == old(users).next_id,
        r matches Err(e) ==> e matches ApiError::Internal(_),
        has_email(old(users).rows@, email@) ==> r is Err,
{
    match bcrypt_hash(password) {
        Err(_) => Err(ApiError::internal(String::from_str("password hashing failed"))),
        Ok(passhash) => users.insert_user(email, passhash),
    }
}

/// Exchanges credentials for a fresh bearer token.  An unknown email
/// is exactly the `BadRequest` below; a known account whose stored,
/// well-formed hash rejects the password is answered with exactly
/// `IncorrectPassword`; every other failure is infrastructure and
/// opaque; on success a session row for that account is recorded under
/// the minted token, which the returned text parses back to.
pub fn login(
    users: &UserTable,
    logins: &mut LoginTable,
    email: &str,
    password: &str,
    now: i64,
) -> (r: Result<String, ApiError>)
    requires
        old(logins).wf(),
        users.wf(),
    ensures
        final(logins).wf(),
        r is Err ==> final(logins).rows@ == old(logins).rows@,
        !has_email(users.rows@, email@) <==> (r matches Err(e) && e matches ApiError::BadRequest(m)
            && m@ == "No such user with that email address"@),
        r == Err::<String, ApiError>(ApiError::IncorrectPassword) ==> exists|k: int|
            0 <= k < users.rows@.len() && (#[trigger] users.rows@[k]).email@ == email@
                && !bcrypt_matches(password@, users.rows@[k].passhash@),
        (exists|k: int|
            0 <= k < users.rows@.len() && (#[trigger] users.rows@[k]).email@ == email@
                && bcrypt_hash_wf(users.rows@[k].passhash@) && !bcrypt_matches(
                password@,
                users.rows@[k].passhash@,
            )) ==> r == Err::<String, ApiError>(ApiError::IncorrectPassword),
        r matches Err(e) ==> ((e matches ApiError::BadRequest(m) && m@
            == "No such user with that email address"@) || e == ApiError::IncorrectPassword || (
        e matches ApiError::Internal(_))),
        r matches Ok(tok) ==> ({
            &&& uuid_of(tok@) is Some
            &&& final(logins).rows@.len() == old(logins).rows@.len() + 1
            &&& forall|i: int|
                0 <= i < old(logins).rows@.len() ==> final(logins).rows@[i] == old(logins).rows@[i]
            &&& final(logins).rows@.last().token == uuid_of(tok@).unwrap()
            &&& final(logins).rows@.last().created_at == now
            &&& exists|k: int|
                0 <= k < users.rows@.len() && (#[trigger] users.rows@[k]).email@ == email@
                    && bcrypt_matches(password@, users.rows@[k].passhash@) && final(logins).rows@.last().user_id
                    == users.rows@[k].id
        }),
{
    match users.find_by_email(email) {
        None => Err(ApiError::BadRequest(String::from_str("No such user with that email address"))),
        Some((uid, passhash)) => {
            match bcrypt_verify(password, passhash.as_str()) {
                Err(_) => Err(
                    ApiError::internal(String::from_str("password verification failed")),
                ),
                Ok(false) => Err(ApiError::IncorrectPassword),
                Ok(true) => {
                    let (token_text, token_value) = mint_login_token();
                    match logins.insert(token_value, uid, now) {
                        Ok(_) => Ok(token_text),
                        Err(e) => Err(e),
                    }
                },
            }
        },
    }
}

} // verus!
