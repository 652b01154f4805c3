//! The credential store and its operations: user records with unique ids
//! and unique usernames, sign-up (with bcrypt password hashing) and sign-in
//! (credential check plus token issue). Hashing and digest checking are
//! delegated to the `bcrypt` crate; everything around the two calls is
//! verified.

use vstd::prelude::*;

use crate::error::ServiceError;
use crate::task::{Task, TaskStore, owned_by};
use crate::text::eq_str;
use crate::token::{JWT, TOKEN_DURATION_SECS, jwt_token};

verus! {

/// A stored user record. The `password` field holds the bcrypt digest of
/// the password chosen at sign-up, never the plaintext.
#[derive(Debug)]
pub struct User {
    /// Unique id, assigned at sign-up from a counter starting at 1.
    pub id: i32,
    /// Unique username.
    pub username: String,
    /// The bcrypt digest of the user's password.
    pub password: String,
}

/// Spec-level image of a user record.
pub ghost struct UserView {
    pub id: i32,
    pub username: Seq<char>,
    pub password: Seq<char>,
}

impl View for User {
    type V = UserView;

    open spec fn view(&self) -> UserView {
        UserView { id: self.id, username: self.username@, password: self.password@ }
    }
}

/// The public projection of a user: id and username, never the password
/// digest.
#[derive(Debug)]
pub struct UserPublic {
    pub id: i32,
    pub username: String,
}

/// Spec-level image of the public projection.
pub ghost struct UserPublicView {
    pub id: i32,
    pub username: Seq<char>,
}

impl View for UserPublic {
    type V = UserPublicView;

    open spec fn view(&self) -> UserPublicView {
        UserPublicView { id: self.id, username: self.username@ }
    }
}

/// `bcrypt::verify(password, digest)` returns `Ok(true)`: the digest was
/// produced from this password (up to bcrypt's 72-byte truncation).
pub uninterp spec fn pw_matches(password: Seq<char>, digest: Seq<char>) -> bool;

/// Relies on `bcrypt::hash` with `DEFAULT_COST`: on success the returned
/// digest carries the salt and cost it was produced with, so
/// `bcrypt::verify` accepts the same password against it. The call fails
/// only if the operating system's randomness source yields no salt.
#[verifier::external_body]
fn hash_password(password: &str) -> (r: Option<String>)
    ensures
        r matches Some(digest) ==> pw_matches(password@, digest@),
{
    bcrypt::hash(password, bcrypt::DEFAULT_COST).ok()
}

/// Relies on `bcrypt::verify`: the outcome is a pure function of password
/// and digest; a digest that does not parse verifies as false.
#[verifier::external_body]
fn verify_password(password: &str, digest: &str) -> (r: bool)
    ensures
        r == pw_matches(password@, digest@),
{
    bcrypt::verify(password, digest).unwrap_or(false)
}

/// Some user in `users` is named `name`.
pub open spec fn username_taken(users: Seq<UserView>, name: Seq<char>) -> bool {
    exists|i: int| 0 <= i < users.len() && users[i].username == name
}

/// The first user in `users` named `name`.
pub open spec fn find_user(users: Seq<UserView>, name: Seq<char>) -> Option<UserView>
    decreases users.len(),
{
    if users.len() == 0 {
        Option::None
    } else if users[0].username == name {
        Option::Some(users[0])
    } else {
        find_user(users.drop_first(), name)
    }
}

/// The first user in `users` with id `id`.
pub open spec fn find_user_by_id(users: Seq<UserView>, id: i32) -> Option<UserView>
    decreases users.len(),
{
    if users.len() == 0 {
        Option::None
    } else if users[0].id == id {
        Option::Some(users[0])
    } else {
        find_user_by_id(users.drop_first(), id)
    }
}

/// `find_user` returns a record exactly when one is named `name`, and what
/// it returns is the record at the first matching index.
pub proof fn lemma_find_user_at(users: Seq<UserView>, name: Seq<char>, i: int)
    requires
        0 <= i <= users.len(),
        forall|k: int| 0 <= k < i ==> users[k].username != name,
    ensures
        i < users.len() && users[i].username == name ==> find_user(users, name) == Option::Some(
            users[i],
        ),
        i == users.len() ==> find_user(users, name) is None,
    decreases users.len(),
{
    if users.len() == 0 {
    } else if users[0].username == name {
    } else {
        if i > 0 {
            lemma_find_user_at(users.drop_first(), name, i - 1);
        } else {
            lemma_find_user_at(users.drop_first(), name, 0);
        }
    }
}

/// `find_user_by_id` returns a record exactly when one has id `id`, and
/// what it returns is the record at the first matching index.
pub proof fn lemma_find_user_by_id_at(users: Seq<UserView>, id: i32, i: int)
    requires
        0 <= i <= users.len(),
        forall|k: int| 0 <= k < i ==> users[k].id != id,
    ensures
        i < users.len() && users[i].id == id ==> find_user_by_id(users, id) == Option::Some(
            users[i],
        ),
        i == users.len() ==> find_user_by_id(users, id) is None,
    decreases users.len(),
{
    if users.len() == 0 {
    } else if users[0].id == id {
    } else {
        if i > 0 {
            lemma_find_user_by_id_at(users.drop_first(), id, i - 1);
        } else {
            lemma_find_user_by_id_at(users.drop_first(), id, 0);
        }
    }
}

/// A name that is not yet taken is found in a store extended by a record of
/// that name, and finds exactly that record.
pub proof fn lemma_find_user_push(users: Seq<UserView>, u: UserView, name: Seq<char>)
    requires
        !username_taken(users, name),
    ensures
        u.username == name ==> find_user(users.push(u), name) == Option::Some(u),
        u.username != name ==> find_user(users.push(u), name) is None,
    decreases users.len(),
{
    if users.len() == 0 {
        assert(users.push(u).drop_first() =~= Seq::<UserView>::empty().push(u).drop_first());
        assert(users.push(u)[0] == u);
    } else {
        assert(users[0].username != name);
        assert(users.push(u)[0] == users[0]);
        assert(users.push(u).drop_first() =~= users.drop_first().push(u));
        assert(!username_taken(users.drop_first(), name)) by {
            if username_taken(users.drop_first(), name) {
                let j = choose|j: int|
                    0 <= j < users.drop_first().len() && users.drop_first()[j].username == name;
                assert(users[j + 1].username == name);
            }
        }
        lemma_find_user_push(users.drop_first(), u, name);
    }
}

/// The public projection of the user with id `uid`, if one exists.
pub open spec fn owner_projection(users: Seq<UserView>, uid: i32) -> Option<UserPublicView> {
    match find_user_by_id(users, uid) {
        Option::Some(u) => Option::Some(UserPublicView { id: u.id, username: u.username }),
        Option::None => Option::None,
    }
}

/// The spec-level image of the credential store: the records in insertion
/// order, and the id the next sign-up will receive.
pub ghost struct UserStoreView {
    pub users: Seq<UserView>,
    pub next_id: i32,
}

/// Well-formedness of the credential store: ids are unique, positive and
/// below the insertion counter, and usernames are unique.
pub open spec fn user_store_wf(v: UserStoreView) -> bool {
    &&& 1 <= v.next_id
    &&& forall|i: int| 0 <= i < v.users.len() ==> 1 <= (#[trigger] v.users[i]).id < v.next_id
    &&& forall|i: int, j: int|
        0 <= i < j < v.users.len() ==> v.users[i].id != v.users[j].id
    &&& forall|i: int, j: int|
        0 <= i < j < v.users.len() ==> v.users[i].username != v.users[j].username
}

/// The credential store: user records in insertion order.
pub struct UserStore {
    users: Vec<User>,
    next_id: i32,
}

impl View for UserStore {
    type V = UserStoreView;

    closed spec fn view(&self) -> UserStoreView {
        UserStoreView { users: self.users@.map_values(|u: User| u@), next_id: self.next_id }
    }
}

impl UserStore {
    /// An empty credential store; the first sign-up receives id 1.
    pub fn new() -> (s: UserStore)
        ensures
            s@.users.len() == 0,
            s@.next_id == 1,
            user_store_wf(s@),
    {
        UserStore { users: Vec::new(), next_id: 1 }
    }

    /// Whether some user already bears this username.
    pub fn username_exists(&self, name: &str) -> (r: bool)
        ensures
            r == username_taken(self@.users, name@),
    {
        let n = self.users.len();
        let mut i: usize = 0;
        while i < n
            invariant
                i <= n,
                n == self.users.len(),
                self@.users.len() == n,
                forall|k: int| 0 <= k < i ==> self@.users[k].username != name@,
            decreases n - i,
        {
            if eq_str(self.users[i].username.as_str(), name) {
                proof {
                    assert(0 <= i < self@.users.len() && self@.users[i as int].username == name@);
                }
                return true;
            }
            i = i + 1;
        }
        false
    }

    /// Looks a user up by exact username; the result is the first match.
    pub fn find_by_username(&self, name: &str) -> (r: Option<User>)
        ensures
            match r {
                Option::Some(u) => find_user(self@.users, name@) == Option::Some(u@),
                Option::None => find_user(self@.users, name@) is None,
            },
    {
        let n = self.users.len();
        let mut i: usize = 0;
        while i < n
            invariant
                i <= n,
                n == self.users.len(),
                self@.users.len() == n,
                forall|k: int| 0 <= k < i ==> self@.users[k].username != name@,
            decreases n - i,
        {
            if eq_str(self.users[i].username.as_str(), name) {
                proof {
                    lemma_find_user_at(self@.users, name@, i as int);
                }
                let u = &self.users[i];
                return Option::Some(
                    User {
                        id: u.id,
                        username: u.username.clone(),
                        password: u.password.clone(),
                    },
                );
            }
            i = i + 1;
        }
        proof {
            lemma_find_user_at(self@.users, name@, n as int);
        }
        Option::None
    }

    /// Looks a user up by id; the result is the first match.
    pub fn find_by_id(&self, id: i32) -> (r: Option<User>)
        ensures
            match r {
                Option::Some(u) => find_user_by_id(self@.users, id) == Option::Some(u@),
                Option::None => find_user_by_id(self@.users, id) is None,
            },
    {
        let n = self.users.len();
        let mut i: usize = 0;
        while i < n
            invariant
                i <= n,
                n == self.users.len(),
                self@.users.len() == n,
                forall|k: int| 0 <= k < i ==> self@.users[k].id != id,
            decreases n - i,
        {
            if self.users[i].id == id {
                proof {
                    lemma_find_user_by_id_at(self@.users, id, i as int);
                }
                let u = &self.users[i];
                return Option::Some(
                    User {
                        id: u.id,
                        username: u.username.clone(),
                        password: u.password.clone(),
                    },
                );
            }
            i = i + 1;
        }
        proof {
            lemma_find_user_by_id_at(self@.users, id, n as int);
        }
        Option::None
    }

    /// The public projection of the user with id `uid`, if one exists.
    pub fn public_of(&self, uid: i32) -> (r: Option<UserPublic>)
        ensures
            match r {
                Option::Some(p) => owner_projection(self@.users, uid) == Option::Some(p@),
                Option::None => owner_projection(self@.users, uid) is None,
            },
    {
        match self.find_by_id(uid) {
            Option::Some(u) => Option::Some(UserPublic { id: u.id, username: u.username }),
            Option::None => Option::None,
        }
    }
}

/// What a successful sign-in hands back: the issued bearer token and the
/// identity it was issued for.
#[derive(Debug)]
pub struct SignIn {
    /// The signed bearer token.
    pub token: String,
    /// Always `Bearer`.
    pub token_type: String,
    /// The id of the signed-in user.
    pub user_id: i32,
    /// The username of the signed-in user.
    pub username: String,
}

/// Mutations on the credential store.
pub struct UserMutations;

impl UserMutations {
    /// Appends a user record with an already-computed password digest under
    /// a fresh id. Succeeds exactly when the username is still free and the
    /// id space is not exhausted.
    pub fn insert_hashed(store: &mut UserStore, username: String, digest: String) -> (r: Result<
        User,
        ServiceError,
    >)
        requires
            user_store_wf(old(store)@),
        ensures
            user_store_wf(final(store)@),
            r is Ok <==> (!username_taken(old(store)@.users, username@) && old(store)@.next_id
                < i32::MAX),
            match r {
                Result::Ok(u) => {
                    &&& u@.id == old(store)@.next_id
                    &&& u@.username == username@
                    &&& u@.password == digest@
                    &&& final(store)@.users == old(store)@.users.push(u@)
                    &&& final(store)@.next_id == old(store)@.next_id + 1
                },
                Result::Err(e) => {
                    &&& final(store)@ == old(store)@
                    &&& (e == ServiceError::Conflict <==> username_taken(
                        old(store)@.users,
                        username@,
                    ))
                    &&& (e == ServiceError::Conflict || e == ServiceError::Internal)
                },
            },
    {
        if store.username_exists(username.as_str()) {
            return Result::Err(ServiceError::Conflict);
        }
        if store.next_id == i32::MAX {
            return Result::Err(ServiceError::Internal);
        }
        let id = store.next_id;
        let username_out = username.clone();
        let digest_out = digest.clone();
        store.users.push(User { id, username, password: digest });
        store.next_id = id + 1;
        proof {
            assert(final(store)@.users =~= old(store)@.users.push(
                UserView { id, username: username_out@, password: digest_out@ },
            ));
        }
        Result::Ok(User { id, username: username_out, password: digest_out })
    }

    /// Sign-up: rejects a username that is already present (regardless of
    /// the password); otherwise hashes the password and appends the record
    /// under a fresh id. The returned record carries a digest that matches
    /// the chosen password.
    pub fn create(store: &mut UserStore, username: String, password: String) -> (r: Result<
        User,
        ServiceError,
    >)
        requires
            user_store_wf(old(store)@),
        ensures
            user_store_wf(final(store)@),
            match r {
                Result::Ok(u) => {
                    &&& !username_taken(old(store)@.users, username@)
                    &&& u@.id == old(store)@.next_id
                    &&& u@.username == username@
                    &&& pw_matches(password@, u@.password)
                    &&& final(store)@.users == old(store)@.users.push(u@)
                    &&& final(store)@.next_id == old(store)@.next_id + 1
                },
                Result::Err(e) => {
                    &&& final(store)@ == old(store)@
                    &&& (e == ServiceError::Conflict <==> username_taken(
                        old(store)@.users,
                        username@,
                    ))
                    &&& (e == ServiceError::Conflict || e == ServiceError::Internal)
                },
            },
    {
        if store.username_exists(username.as_str()) {
            return Result::Err(ServiceError::Conflict);
        }
        match hash_password(password.as_str()) {
            Option::None => Result::Err(ServiceError::Internal),
            Option::Some(digest) => UserMutations::insert_hashed(store, username, digest),
        }
    }

    /// Sign-in: looks the user up by exact username, checks the password
    /// against the stored digest, and issues a bearer token expiring
    /// `TOKEN_DURATION_SECS` seconds after `now`. Fails as `Unauthenticated`
    /// exactly when no user bears the username or the password does not
    /// match.
    pub fn sign_in(store: &UserStore, username: String, password: String, secret: &str, now: u64) -> (r:
        Result<SignIn, ServiceError>)
        requires
            user_store_wf(store@),
            now + TOKEN_DURATION_SECS <= u64::MAX,
        ensures
            r is Ok <==> (find_user(store@.users, username@) matches Option::Some(u) && pw_matches(
                password@,
                u.password,
            )),
            match r {
                Result::Ok(s) => {
                    &&& find_user(store@.users, username@) matches Option::Some(u)
                    &&& s.user_id == u.id
                    &&& s.username@ == u.username
                    &&& s.token@ == jwt_token(secret@, u.id, (now + TOKEN_DURATION_SECS) as u64)
                    &&& s.token_type@ == "Bearer"@
                },
                Result::Err(e) => e == ServiceError::Unauthenticated,
            },
    {
        let user = match store.find_by_username(username.as_str()) {
            Option::None => {
                return Result::Err(ServiceError::Unauthenticated);
            },
            Option::Some(u) => u,
        };
        if !verify_password(password.as_str(), user.password.as_str()) {
            return Result::Err(ServiceError::Unauthenticated);
        }
        let token = JWT::encode(&user.id, secret, now);
        Result::Ok(
            SignIn {
                token,
                token_type: bearer_label(),
                user_id: user.id,
                username: user.username,
            },
        )
    }
}

/// The fixed token type label `Bearer`.
fn bearer_label() -> (r: String)
    ensures
        r@ == "Bearer"@,
{
    "Bearer".to_owned()
}

/// Sign-in succeeds after sign-up: a user record whose username is still
/// free, appended to a well-formed store, is exactly what a later lookup of
/// that username finds — so a sign-in that checks the password against the
/// appended record's digest succeeds whenever the digest matches, which
/// sign-up guarantees for the chosen password.
pub proof fn lemma_sign_up_then_sign_in(v: UserStoreView, u: UserView, password: Seq<char>)
    requires
        user_store_wf(v),
        !username_taken(v.users, u.username),
    ensures
        find_user(v.users.push(u), u.username) == Option::Some(u),
        pw_matches(password, u.password) ==> (find_user(v.users.push(u), u.username)
            matches Option::Some(w) && pw_matches(password, w.password)),
{
    lemma_find_user_push(v.users, u, u.username);
}

/// The current user's profile: id, username and every task they own. The
/// password digest is never part of it.
#[derive(Debug)]
pub struct UserModel {
    pub id: i32,
    pub username: String,
    pub tasks: Vec<Task>,
}

/// Queries on the credential store.
pub struct UserQueries;

impl UserQueries {
    /// Resolves an authenticated identity to the user's profile, with all
    /// tasks that user owns.
    pub fn get_current_user(user: JWT, users: &UserStore, tasks: &TaskStore) -> (r: Result<
        UserModel,
        ServiceError,
    >)
        ensures
            r is Ok <==> find_user_by_id(users@.users, user.claims.sub) is Some,
            match r {
                Result::Ok(m) => {
                    &&& find_user_by_id(users@.users, user.claims.sub) matches Option::Some(u)
                    &&& m.id == u.id
                    &&& m.username@ == u.username
                    &&& m.tasks@.map_values(|t: Task| t@) == tasks@.tasks.filter(owned_by(u.id))
                },
                Result::Err(e) => e == ServiceError::Unauthenticated,
            },
    {
        match users.find_by_id(user.claims.sub) {
            Option::None => Result::Err(ServiceError::Unauthenticated),
            Option::Some(u) => {
                let owned = tasks.tasks_of(u.id);
                Result::Ok(UserModel { id: u.id, username: u.username, tasks: owned })
            },
        }
    }
}

} // verus!
