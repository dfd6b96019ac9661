//! The store model: owner of the durable user and order state.
//!
//! `Db` holds the two tables — credential rows and persisted order rows —
//! exactly as the backing store does, with order rows kept in their raw
//! column form.  Every operation states over the ghost view what it did:
//! which rows it added or rewrote, that all others are untouched, and on
//! which inputs each error comes.
use vstd::pervasive::VecAdditionalExecFns;
use vstd::prelude::*;

use crate::crypt::bcrypt_check;
use crate::crypt::hash_password;
use crate::crypt::hash_wf;
use crate::crypt::verify_password;
use crate::errors::SqlError;
use crate::models::SpordRecord;
use crate::rows::SpordFields;
use crate::rows::SpordRecordView;
use crate::rows::SpordRow;
use crate::rows::SpordRowView;
use crate::rows::decode_row;
use crate::rows::encode_record;
use crate::rows::spec_decode;
use crate::rows::spec_encode;

verus! {

/// A credential row: the hash of the password, never the plaintext.
/// `enabled` and `lastlogin` are reserved: accounts are created enabled and
/// no operation writes either field yet.
#[derive(Debug, Clone)]
pub struct UserRow {
    pub username: String,
    pub password_hash: String,
    pub enabled: bool,
    pub lastlogin: Option<i64>,
}

/// Ghost counterpart of [`UserRow`].
pub struct UserRowView {
    pub username: Seq<char>,
    pub password_hash: Seq<char>,
    pub enabled: bool,
    pub lastlogin: Option<i64>,
}

impl View for UserRow {
    type V = UserRowView;

    open spec fn view(&self) -> UserRowView {
        UserRowView {
            username: self.username@,
            password_hash: self.password_hash@,
            enabled: self.enabled,
            lastlogin: self.lastlogin,
        }
    }
}

/// Ghost state of the whole store: both tables and the next order id.
pub struct DbView {
    pub users: Seq<UserRowView>,
    pub spords: Seq<SpordRowView>,
    pub next_id: i32,
}

/// The view of a user table.
pub open spec fn users_view(v: Seq<UserRow>) -> Seq<UserRowView> {
    v.map_values(|u: UserRow| u@)
}

/// The view of an order table.
pub open spec fn spords_view(v: Seq<SpordRow>) -> Seq<SpordRowView> {
    v.map_values(|r: SpordRow| r@)
}

/// The view of a list of decoded records.
pub open spec fn records_view(v: Seq<SpordRecord>) -> Seq<SpordRecordView> {
    v.map_values(|r: SpordRecord| r@)
}

/// Whether some row carries this username.
pub open spec fn user_exists(users: Seq<UserRowView>, name: Seq<char>) -> bool {
    exists|i: int| 0 <= i < users.len() && users[i].username == name
}

/// The first row carrying this username, if any.
pub open spec fn lookup_user(users: Seq<UserRowView>, name: Seq<char>) -> Option<UserRowView>
    decreases users.len(),
{
    if users.len() == 0 {
        Option::None
    } else if users[0].username == name {
        Option::Some(users[0])
    } else {
        lookup_user(users.drop_first(), name)
    }
}

/// What a login attempt comes to: `false` for a username no row carries —
/// never an error — and otherwise whatever the password check says against
/// the stored hash.
pub open spec fn login_outcome(
    users: Seq<UserRowView>,
    name: Seq<char>,
    password: Seq<char>,
) -> bool {
    match lookup_user(users, name) {
        Option::Some(u) => bcrypt_check(password, u.password_hash) == Option::Some(true),
        Option::None => false,
    }
}

/// Whether some order row carries this id.
pub open spec fn spord_exists(spords: Seq<SpordRowView>, id: i32) -> bool {
    exists|i: int| 0 <= i < spords.len() && spords[i].id == id
}

/// The decoded records of a listing, in row order, with every row that
/// fails to decode skipped.
pub open spec fn spec_list(rows: Seq<SpordRowView>) -> Seq<SpordRecordView>
    decreases rows.len(),
{
    if rows.len() == 0 {
        Seq::empty()
    } else {
        let rest = spec_list(rows.drop_last());
        match spec_decode(rows.last()) {
            Option::Some(rec) => rest.push(rec),
            Option::None => rest,
        }
    }
}

/// Usernames are unique, and every stored hash is one the hash function
/// produced.
pub open spec fn users_wf(users: Seq<UserRowView>) -> bool {
    &&& forall|i: int, j: int|
        0 <= i < j < users.len() ==> users[i].username != users[j].username
    &&& forall|i: int| 0 <= i < users.len() ==> hash_wf((#[trigger] users[i]).password_hash)
}

/// Order ids are unique and lie below the next id to assign.
pub open spec fn spords_wf(spords: Seq<SpordRowView>, next_id: i32) -> bool {
    &&& forall|i: int, j: int| 0 <= i < j < spords.len() ==> spords[i].id != spords[j].id
    &&& forall|i: int| 0 <= i < spords.len() ==> 1 <= (#[trigger] spords[i]).id < next_id
}

/// What a successful user creation did to the store: one row appended, for
/// this username, enabled, with a hash that verifies the given password;
/// nothing else moved.
pub open spec fn created_user(
    pre: DbView,
    post: DbView,
    username: Seq<char>,
    password: Seq<char>,
) -> bool {
    &&& post.spords == pre.spords
    &&& post.next_id == pre.next_id
    &&& post.users.len() == pre.users.len() + 1
    &&& post.users.subrange(0, pre.users.len() as int) == pre.users
    &&& post.users.last().username == username
    &&& bcrypt_check(password, post.users.last().password_hash) == Option::Some(true)
    &&& hash_wf(post.users.last().password_hash)
    &&& post.users.last().enabled == true
    &&& post.users.last().lastlogin is None
}

/// The full contract of a user creation: it fails with `DuplicateUser`
/// exactly when the username is taken, a failure changes nothing, and a
/// success appends exactly the one new row.
pub open spec fn user_create_post(
    pre: DbView,
    post: DbView,
    username: Seq<char>,
    password: Seq<char>,
    res: Result<(), SqlError>,
) -> bool {
    &&& res == Err::<(), SqlError>(SqlError::DuplicateUser) <==> user_exists(pre.users, username)
    &&& res is Err ==> post == pre
    &&& (res matches Err(e) ==> e == SqlError::DuplicateUser || e == SqlError::HashingError)
    &&& res is Ok ==> created_user(pre, post, username, password)
}

/// Decide a login attempt from the stored hash a lookup produced: no row
/// means `false` — never an error — and otherwise the password check
/// against the hash, with `HashingError` exactly when the check itself
/// cannot run on that hash.
pub fn login_check(stored_hash: Option<&str>, password: &str) -> (res: Result<bool, SqlError>)
    ensures
        stored_hash is None ==> res == Ok::<bool, SqlError>(false),
        res matches Ok(b) ==> b == (match stored_hash {
            Option::Some(h) => bcrypt_check(password@, h@) == Option::Some(true),
            Option::None => false,
        }),
        res is Err ==> (stored_hash matches Some(h) && bcrypt_check(password@, h@) is None) && res
            == Err::<bool, SqlError>(SqlError::HashingError),
{
    match stored_hash {
        None => Ok(false),
        Some(h) => match verify_password(password, h) {
            Ok(b) => Ok(b),
            Err(_) => Err(SqlError::HashingError),
        },
    }
}

/// Build the credential row a user creation inserts: the hash of the
/// password — never the plaintext — an enabled account, and no login
/// recorded yet.  Fails only with `HashingError`, when the hash function
/// itself does.
pub fn prepare_user_row(username: &str, password: &str) -> (res: Result<UserRow, SqlError>)
    ensures
        res matches Ok(row) ==> {
            &&& row@.username == username@
            &&& bcrypt_check(password@, row@.password_hash) == Option::Some(true)
            &&& hash_wf(row@.password_hash)
            &&& row@.enabled == true
            &&& row@.lastlogin is None
        },
        res is Err ==> res == Err::<UserRow, SqlError>(SqlError::HashingError),
{
    let hashed = match hash_password(password) {
        Ok(h) => h,
        Err(_) => {
            return Err(SqlError::HashingError);
        },
    };
    Ok(
        UserRow {
            username: String::from_str(username),
            password_hash: hashed,
            enabled: true,
            lastlogin: None,
        },
    )
}

/// The store: sole owner of the durable user and order state.
#[derive(Debug)]
pub struct Db {
    users: Vec<UserRow>,
    spords: Vec<SpordRow>,
    next_id: i32,
}

impl View for Db {
    type V = DbView;

    closed spec fn view(&self) -> DbView {
        DbView {
            users: users_view(self.users@),
            spords: spords_view(self.spords@),
            next_id: self.next_id,
        }
    }
}

impl Db {
    /// Both tables well formed, and the next id still assignable.
    pub open spec fn wf(self) -> bool {
        &&& users_wf(self@.users)
        &&& spords_wf(self@.spords, self@.next_id)
        &&& 1 <= self@.next_id
    }

    /// A fresh, empty store, as schema initialization leaves it.
    pub fn new() -> (db: Db)
        ensures
            db.wf(),
            db@.users.len() == 0,
            db@.spords.len() == 0,
            db@.next_id == 1,
    {
        Db { users: Vec::new(), spords: Vec::new(), next_id: 1 }
    }

    /// The index of the row carrying this username: the store keeps
    /// usernames unique, so at most one matches.
    fn find_user(&self, username: &str) -> (r: Option<usize>)
        ensures
            match r {
                Option::Some(i) => {
                    &&& 0 <= i < self@.users.len()
                    &&& self@.users[i as int].username == username@
                    &&& forall|j: int| 0 <= j < i ==> self@.users[j].username != username@
                },
                Option::None => !user_exists(self@.users, username@),
            },
    {
        let target = String::from_str(username);
        let n = self.users.len();
        assert(self@.users.len() == n);
        let mut i: usize = 0;
        while i < n
            invariant
                n == self.users@.len(),
                i <= n,
                forall|j: int| 0 <= j < i ==> self@.users[j].username != username@,
                target@ == username@,
            decreases n - i,
        {
            assert(self@.users[i as int] == self.users@[i as int]@);
            if self.users[i].username == target {
                return Some(i);
            }
            i += 1;
        }
        None
    }

    /// Create a user: hash the password and append a new enabled row.
    /// Fails with `DuplicateUser` exactly when the username is already
    /// taken (the row is then untouched), and with `HashingError` when the
    /// hash function itself fails; a failure changes nothing.
    pub fn user_create(&mut self, username: &str, password: &str) -> (res: Result<(), SqlError>)
        requires
            old(self).wf(),
        ensures
            final(self).wf(),
            user_create_post(old(self)@, final(self)@, username@, password@, res),
    {
        if let Some(_i) = self.find_user(username) {
            return Err(SqlError::DuplicateUser);
        }
        let row = match prepare_user_row(username, password) {
            Ok(row) => row,
            Err(e) => {
                return Err(e);
            },
        };
        let ghost pre = self@;
        let ghost rowv = row@;
        self.users.push(row);
        proof {
            assert(self@.users =~= pre.users.push(rowv));
            assert(self@.users.subrange(0, pre.users.len() as int) =~= pre.users);
            assert forall|i: int, j: int|
                0 <= i < j < self@.users.len() implies self@.users[i].username
                != self@.users[j].username by {
                if j < pre.users.len() {
                } else {
                    assert(self@.users[j] == rowv);
                    assert(self@.users[i] == pre.users[i]);
                }
            }
            assert forall|i: int| 0 <= i < self@.users.len() implies hash_wf(
                (#[trigger] self@.users[i]).password_hash,
            ) by {
                if i < pre.users.len() {
                    assert(self@.users[i] == pre.users[i]);
                }
            }
        }
        Ok(())
    }

    /// Verify a login attempt.  A username no row carries gives `Ok(false)`
    /// — never an error, so the error channel leaks no account existence —
    /// and otherwise the result is the password check against the stored
    /// hash.  On a well-formed store this never fails.
    pub fn user_login(&self, username: &str, password: &str) -> (res: Result<bool, SqlError>)
        requires
            self.wf(),
        ensures
            res matches Ok(b) && b == login_outcome(self@.users, username@, password@),
            !user_exists(self@.users, username@) ==> res == Ok::<bool, SqlError>(false),
    {
        match self.find_user(username) {
            None => {
                proof {
                    lemma_lookup_not_found(self@.users, username@);
                }
                Ok(false)
            },
            Some(i) => {
                proof {
                    lemma_lookup_first_match(self@.users, username@, i as int);
                }
                assert(self.users@[i as int]@ == self@.users[i as int]);
                let row = &self.users[i];
                match login_check(Some(row.password_hash.as_str()), password) {
                    Ok(b) => Ok(b),
                    Err(_) => {
                        proof {
                            assert(hash_wf(self@.users[i as int].password_hash));
                            assert(false);
                        }
                        Ok(false)
                    },
                }
            },
        }
    }

    /// Create a user after checking that the two interactively entered
    /// passwords agree; a mismatch is a recoverable `PasswordMismatch`, not
    /// a failure of the whole process.
    pub fn user_create_checked(
        &mut self,
        username: &str,
        password1: &str,
        password2: &str,
    ) -> (res: Result<(), SqlError>)
        requires
            old(self).wf(),
        ensures
            final(self).wf(),
            password1@ != password2@ ==> res == Err::<(), SqlError>(SqlError::PasswordMismatch)
                && final(self)@ == old(self)@,
            password1@ == password2@ ==> user_create_post(
                old(self)@,
                final(self)@,
                username@,
                password1@,
                res,
            ),
    {
        let p1 = String::from_str(password1);
        let p2 = String::from_str(password2);
        if !(p1 == p2) {
            return Err(SqlError::PasswordMismatch);
        }
        self.user_create(username, password1)
    }

    /// Insert an order row from already encoded columns, assigning the next
    /// id.  Fails — leaving the store untouched — only when the ids are
    /// exhausted.
    pub fn insert_fields(&mut self, fields: SpordFields) -> (res: Result<i32, SqlError>)
        requires
            old(self).wf(),
        ensures
            final(self).wf(),
            res is Ok <==> old(self)@.next_id < i32::MAX,
            res matches Ok(id) ==> {
                &&& id == old(self)@.next_id
                &&& final(self)@.users == old(self)@.users
                &&& final(self)@.next_id == old(self)@.next_id + 1
                &&& final(self)@.spords == old(self)@.spords.push(
                    SpordRowView { id, fields: fields@ },
                )
            },
            res is Err ==> final(self)@ == old(self)@ && res == Err::<i32, SqlError>(
                SqlError::StoreError,
            ),
    {
        if self.next_id == i32::MAX {
            return Err(SqlError::StoreError);
        }
        let id = self.next_id;
        let ghost pre = self@;
        let row = SpordRow { id, fields };
        let ghost rowv = row@;
        self.spords.push(row);
        self.next_id = id + 1;
        proof {
            assert(self@.spords =~= pre.spords.push(rowv));
            assert forall|i: int, j: int|
                0 <= i < j < self@.spords.len() implies self@.spords[i].id
                != self@.spords[j].id by {
                if j < pre.spords.len() {
                } else {
                    assert(self@.spords[j] == rowv);
                    assert(self@.spords[i] == pre.spords[i]);
                }
            }
            assert forall|i: int| 0 <= i < self@.spords.len() implies 1 <= (
            #[trigger] self@.spords[i]).id < self@.next_id by {
                if i < pre.spords.len() {
                    assert(self@.spords[i] == pre.spords[i]);
                }
            }
        }
        Ok(id)
    }

    /// Create an order: encode every field but the placeholder id and
    /// insert the row under the store-assigned id, which is returned.
    pub fn spord_create(&mut self, record: &SpordRecord) -> (res: Result<i32, SqlError>)
        requires
            old(self).wf(),
        ensures
            final(self).wf(),
            res is Ok <==> old(self)@.next_id < i32::MAX,
            res matches Ok(id) ==> {
                &&& id == old(self)@.next_id
                &&& final(self)@.users == old(self)@.users
                &&& final(self)@.next_id == old(self)@.next_id + 1
                &&& final(self)@.spords == old(self)@.spords.push(
                    SpordRowView { id, fields: spec_encode(record@) },
                )
            },
            res is Err ==> final(self)@ == old(self)@ && res == Err::<i32, SqlError>(
                SqlError::StoreError,
            ),
    {
        self.insert_fields(encode_record(record))
    }

    /// The index of the order row carrying this id, if any.
    fn find_spord(&self, id: i32) -> (r: Option<usize>)
        ensures
            match r {
                Option::Some(i) => 0 <= i < self@.spords.len() && self@.spords[i as int].id == id,
                Option::None => !spord_exists(self@.spords, id),
            },
    {
        let n = self.spords.len();
        assert(self@.spords.len() == n);
        let mut i: usize = 0;
        while i < n
            invariant
                n == self.spords@.len(),
                i <= n,
                forall|j: int| 0 <= j < i ==> self@.spords[j].id != id,
            decreases n - i,
        {
            assert(self@.spords[i as int] == self.spords@[i as int]@);
            if self.spords[i].id == id {
                return Some(i);
            }
            i += 1;
        }
        None
    }

    /// Rewrite every column of the row keyed by `record.id`.  Exactly the
    /// targeted row changes; when no row carries that id the store is
    /// untouched and the result surfaces `NotFound` rather than passing the
    /// miss over in silence.
    pub fn spord_update(&mut self, record: &SpordRecord) -> (res: Result<(), SqlError>)
        requires
            old(self).wf(),
        ensures
            final(self).wf(),
            res is Ok <==> spord_exists(old(self)@.spords, record.id),
            res is Err ==> final(self)@ == old(self)@ && res == Err::<(), SqlError>(
                SqlError::NotFound,
            ),
            res is Ok ==> {
                &&& final(self)@.users == old(self)@.users
                &&& final(self)@.next_id == old(self)@.next_id
                &&& final(self)@.spords.len() == old(self)@.spords.len()
                &&& forall|i: int|
                    0 <= i < old(self)@.spords.len() && old(self)@.spords[i].id != record.id
                        ==> final(self)@.spords[i] == old(self)@.spords[i]
                &&& forall|i: int|
                    0 <= i < old(self)@.spords.len() && old(self)@.spords[i].id == record.id
                        ==> final(self)@.spords[i] == (SpordRowView {
                        id: record.id,
                        fields: spec_encode(record@),
                    })
            },
    {
        let i = match self.find_spord(record.id) {
            Some(i) => i,
            None => {
                return Err(SqlError::NotFound);
            },
        };
        let ghost pre = self@;
        let fields = encode_record(record);
        let row = SpordRow { id: record.id, fields };
        let ghost rowv = row@;
        self.spords.set(i, row);
        proof {
            assert(self@.spords =~= pre.spords.update(i as int, rowv));
            assert forall|k: int|
                0 <= k < pre.spords.len() && pre.spords[k].id != record.id
                    implies self@.spords[k] == pre.spords[k] by {
                assert(pre.spords[i as int].id == record.id);
            }
            assert forall|k: int|
                0 <= k < pre.spords.len() && pre.spords[k].id == record.id
                    implies self@.spords[k] == rowv by {
                if k != i {
                    assert(pre.spords[i as int].id == record.id);
                }
            }
            assert forall|a: int, b: int|
                0 <= a < b < self@.spords.len() implies self@.spords[a].id
                != self@.spords[b].id by {
                assert(pre.spords[a].id != pre.spords[b].id);
                assert(pre.spords[i as int].id == record.id);
            }
            assert forall|k: int| 0 <= k < self@.spords.len() implies 1 <= (
            #[trigger] self@.spords[k]).id < self@.next_id by {
                assert(1 <= pre.spords[k].id < pre.next_id);
                assert(pre.spords[i as int].id == record.id);
            }
        }
        Ok(())
    }

    /// List every order: decode each row in order, skipping — not failing
    /// on — every row that does not decode, and report how many rows were
    /// skipped rather than only logging them away.
    pub fn spord_get_all(&self) -> (r: (Vec<SpordRecord>, usize))
        ensures
            records_view(r.0@) == spec_list(self@.spords),
            r.1 == self@.spords.len() - spec_list(self@.spords).len(),
    {
        let n = self.spords.len();
        assert(self@.spords.len() == n);
        let mut out: Vec<SpordRecord> = Vec::new();
        let mut skipped: usize = 0;
        let mut i: usize = 0;
        proof {
            assert(self@.spords.take(0) =~= Seq::<SpordRowView>::empty());
            assert(records_view(out@) =~= Seq::<SpordRecordView>::empty());
        }
        while i < n
            invariant
                n == self.spords@.len(),
                i <= n,
                records_view(out@) == spec_list(self@.spords.take(i as int)),
                out@.len() == spec_list(self@.spords.take(i as int)).len(),
                skipped == i - spec_list(self@.spords.take(i as int)).len(),
            decreases n - i,
        {
            let ghost prefix = self@.spords.take(i as int);
            let ghost prefix1 = self@.spords.take(i as int + 1);
            proof {
                assert(self@.spords[i as int] == self.spords@[i as int]@);
                assert(prefix1.drop_last() =~= prefix);
                assert(prefix1.last() == self@.spords[i as int]);
            }
            match decode_row(&self.spords[i]) {
                Ok(rec) => {
                    let ghost recv = rec@;
                    out.push(rec);
                    proof {
                        assert(records_view(out@) =~= spec_list(prefix).push(recv));
                    }
                },
                Err(_) => {
                    skipped += 1;
                },
            }
            i += 1;
        }
        proof {
            assert(self@.spords.take(n as int) =~= self@.spords);
        }
        (out, skipped)
    }
}

/// A username that no row carries never looks up.
pub proof fn lemma_lookup_not_found(users: Seq<UserRowView>, name: Seq<char>)
    requires
        !user_exists(users, name),
    ensures
        lookup_user(users, name) is None,
    decreases users.len(),
{
    if users.len() > 0 {
        assert(users[0].username != name);
        assert forall|j: int|
            0 <= j < users.drop_first().len() implies users.drop_first()[j].username != name by {
            assert(users.drop_first()[j] == users[j + 1]);
        }
        lemma_lookup_not_found(users.drop_first(), name);
    }
}

/// The first matching row is what a lookup returns.
pub proof fn lemma_lookup_first_match(users: Seq<UserRowView>, name: Seq<char>, i: int)
    requires
        0 <= i < users.len(),
        users[i].username == name,
        forall|j: int| 0 <= j < i ==> users[j].username != name,
    ensures
        lookup_user(users, name) == Option::Some(users[i]),
    decreases i,
{
    if i == 0 {
    } else {
        assert(users[0].username != name);
        assert(users.drop_first()[i - 1] == users[i]);
        assert forall|j: int| 0 <= j < i - 1 implies users.drop_first()[j].username != name by {
            assert(users.drop_first()[j] == users[j + 1]);
        }
        lemma_lookup_first_match(users.drop_first(), name, i - 1);
    }
}

/// Creating a user and then verifying a login: against the stored rows the
/// created user's password verifies `true`, and every password the hash
/// check rejects verifies `false`.
pub proof fn lemma_create_then_login(
    users: Seq<UserRowView>,
    row: UserRowView,
    password: Seq<char>,
)
    requires
        !user_exists(users, row.username),
        bcrypt_check(password, row.password_hash) == Option::Some(true),
    ensures
        login_outcome(users.push(row), row.username, password),
        forall|other: Seq<char>|
            bcrypt_check(other, row.password_hash) != Option::Some(true) ==> !login_outcome(
                users.push(row),
                row.username,
                other,
            ),
{
    let post = users.push(row);
    assert forall|j: int| 0 <= j < users.len() implies post[j].username != row.username by {
        assert(post[j] == users[j]);
    }
    lemma_lookup_first_match(post, row.username, users.len() as int);
}

/// A login for a username never created is `false` — the lookup misses —
/// and not an error.
pub proof fn lemma_unknown_user_login(
    users: Seq<UserRowView>,
    name: Seq<char>,
    password: Seq<char>,
)
    requires
        !user_exists(users, name),
    ensures
        !login_outcome(users, name, password),
{
    lemma_lookup_not_found(users, name);
}

/// A created order appears in a subsequent listing: the records decoded
/// after the insert are exactly those decoded before it, plus the created
/// record carrying the store-assigned id in place of the placeholder.
pub proof fn lemma_create_then_list(spords: Seq<SpordRowView>, record: SpordRecordView, id: i32)
    ensures
        spec_list(spords.push(SpordRowView { id, fields: spec_encode(record) })) == spec_list(
            spords,
        ).push(crate::rows::with_id(record, id)),
{
    let row = SpordRowView { id, fields: spec_encode(record) };
    let post = spords.push(row);
    assert(post.drop_last() =~= spords);
    assert(post.last() == row);
    crate::rows::lemma_encode_decode_round_trip(record, id);
}

/// Creating the same username twice: the second creation fails with
/// `DuplicateUser` and leaves the store — the first row's stored hash
/// included — exactly as it was.
pub proof fn lemma_duplicate_create(
    pre: DbView,
    mid: DbView,
    post: DbView,
    username: Seq<char>,
    password1: Seq<char>,
    password2: Seq<char>,
    res2: Result<(), SqlError>,
)
    requires
        created_user(pre, mid, username, password1),
        user_create_post(mid, post, username, password2, res2),
    ensures
        res2 == Err::<(), SqlError>(SqlError::DuplicateUser),
        post == mid,
{
    assert(mid.users.last().username == username);
    assert(user_exists(mid.users, username));
}

/// The statement that creates the credential table.
pub open spec fn spec_auth_table_sql() -> Seq<char> {
    "CREATE TABLE auth (\n    username TEXT PRIMARY KEY,\n    password TEXT NOT NULL,\n    enabled BOOL NOT NULL,\n    lastlogin INTEGER\n)"@
}

/// The statement that creates the order table.
pub open spec fn spec_spords_table_sql() -> Seq<char> {
    "CREATE TABLE spords (\n    id INTEGER PRIMARY KEY AUTOINCREMENT,\n    name TEXT NOT NULL,\n    phone TEXT,\n    email TEXT,\n    part TEXT,\n    state INTEGER NOT NULL,\n    created INTEGER NOT NULL,\n    received INTEGER,\n    comments TEXT\n)"@
}

/// The schema of the credential table, for the process that initializes a
/// fresh backing store.
pub fn auth_table_sql() -> (sql: &'static str)
    ensures
        sql@ == spec_auth_table_sql(),
{
    "CREATE TABLE auth (\n    username TEXT PRIMARY KEY,\n    password TEXT NOT NULL,\n    enabled BOOL NOT NULL,\n    lastlogin INTEGER\n)"
}

/// The schema of the order table, for the process that initializes a fresh
/// backing store.
pub fn spords_table_sql() -> (sql: &'static str)
    ensures
        sql@ == spec_spords_table_sql(),
{
    "CREATE TABLE spords (\n    id INTEGER PRIMARY KEY AUTOINCREMENT,\n    name TEXT NOT NULL,\n    phone TEXT,\n    email TEXT,\n    part TEXT,\n    state INTEGER NOT NULL,\n    created INTEGER NOT NULL,\n    received INTEGER,\n    comments TEXT\n)"
}

} // verus!
