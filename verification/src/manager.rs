use vstd::prelude::*;

use crate::config::names_distinct;
use crate::password::{argon2_phc, fresh_phc, hash_outcome, utf8_len, HashError, Hasher};
use crate::types::{redacted, Command, Error, Response, User};
use crate::users::{
    check_password, find_by_name, find_by_uid, name_index, redacted_all, uid_index, verify_outcome,
    without_passwords,
};

verus! {

/// The user `entry.1` under the name `entry.0`.
pub open spec fn named_user(entry: (String, User)) -> User {
    User { username: entry.0, ..entry.1 }
}

/// The users that a configuration's entries (name, user) make, in order.
pub open spec fn users_from_entries(entries: Seq<(String, User)>) -> Seq<User> {
    entries.map_values(|e: (String, User)| named_user(e))
}

/// The answer to fetching the user named `name`: the first user of that name,
/// without its password.
pub open spec fn fetch_outcome(users: Seq<User>, name: Seq<char>) -> Result<Response, Error> {
    match name_index(users, name) {
        Some(i) => Ok(Response::FetchUser(redacted(users[i]))),
        None => Err(Error::NoSuchUser),
    }
}

/// What an answer to a request to hash `password` may be: the PHC string that
/// Argon2 makes of `password` with some 16-byte salt, only where `password` is
/// at most `0xFFFF_FFFF` bytes long; `PasswordHashError`, only where it is
/// longer; or `RandomSourceError`, where the random source gave no salt.
pub open spec fn hash_reply(password: Seq<char>, res: Result<Response, Error>) -> bool {
    match res {
        Ok(Response::HashPassword(phc)) => {
            &&& fresh_phc(password, phc@)
            &&& utf8_len(password) <= 0xFFFF_FFFF
            &&& exists|salt: Seq<u8>| salt.len() == 16 && phc@ == #[trigger] argon2_phc(password, salt)
        },
        Ok(_) => false,
        Err(Error::PasswordHashError) => utf8_len(password) > 0xFFFF_FFFF,
        Err(Error::RandomSourceError) => true,
        Err(_) => false,
    }
}

/// The answer to a request to hash a password, given what hashing gave.
pub open spec fn hash_response_of(hashed: Result<String, HashError>) -> Result<Response, Error> {
    match hashed {
        Ok(phc) => Ok(Response::HashPassword(phc)),
        Err(HashError::Hashing(_)) => Err(Error::PasswordHashError),
        Err(HashError::RandomSource(_)) => Err(Error::RandomSourceError),
    }
}

/// The answer to a request to hash a password, given what hashing gave: the
/// PHC string, `PasswordHashError` where Argon2 refused, `RandomSourceError`
/// where the random source failed.
pub fn hash_response(hashed: Result<String, HashError>) -> (res: Result<Response, Error>)
    ensures
        res == hash_response_of(hashed),
{
    match hashed {
        Ok(phc) => Ok(Response::HashPassword(phc)),
        Err(HashError::Hashing(e)) => Err(Error::from(e)),
        Err(HashError::RandomSource(_)) => Err(Error::RandomSourceError),
    }
}

/// A hashing outcome gives an answer that `hash_reply` allows.
pub proof fn lemma_hash_response_reply(password: Seq<char>, hashed: Result<String, HashError>)
    requires
        hash_outcome(password, hashed),
    ensures
        hash_reply(password, hash_response_of(hashed)),
{
}

/// The daemon's state: the hasher and the users it answers for.
#[derive(Debug)]
pub struct Manager<'a> {
    pub hasher: Hasher<'a>,
    pub users: Vec<User>,
}

impl<'a> Manager<'a> {
    /// A manager for the configured users, given as (name, user) entries, each
    /// name once, as in the configuration's map: each user takes the name it is
    /// configured under.
    pub fn new(users: Vec<(String, User)>) -> (res: Self)
        requires
            names_distinct(users@),
        ensures
            res.users@ == users_from_entries(users@),
    {
        let mut named: Vec<User> = Vec::new();
        let mut i: usize = 0;
        while i < users.len()
            invariant
                i <= users@.len(),
                named@ == users_from_entries(users@.subrange(0, i as int)),
            decreases users@.len() - i,
        {
            let (username, user) = &users[i];
            let mut u = user.duplicate();
            u.username = username.clone();
            proof {
                assert(users_from_entries(users@.subrange(0, i + 1)) =~= users_from_entries(
                    users@.subrange(0, i as int),
                ).push(named_user(users@[i as int])));
            }
            named.push(u);
            i = i + 1;
        }
        proof {
            assert(users@.subrange(0, i as int) =~= users@);
        }
        Manager { hasher: Hasher::new(), users: named }
    }

    /// Accepts a new user; the user list is left as it is.
    pub fn add_user(&self, user: &User) -> (res: Result<Response, Error>)
        ensures
            res == Ok::<Response, Error>(Response::AddUser(())),
    {
        Ok(Response::AddUser(()))
    }

    /// Accepts the removal of a user; the user list is left as it is.
    pub fn remove_user(&self, uid: u32) -> (res: Result<Response, Error>)
        ensures
            res == Ok::<Response, Error>(Response::RemoveUser(())),
    {
        Ok(Response::RemoveUser(()))
    }

    /// Accepts a change of password; the user list is left as it is.
    pub fn set_password(&self, uid: u32, original_password: &str, new_password: &str) -> (res:
        Result<Response, Error>)
        ensures
            res == Ok::<Response, Error>(Response::SetPassword(())),
    {
        Ok(Response::SetPassword(()))
    }

    /// Checks `password` for the first user with uid `uid`.
    pub fn verify_password(&self, uid: u32, password: &str) -> (res: Result<Response, Error>)
        ensures
            res == verify_outcome(self.users@, uid, password@),
    {
        let user = self.fetch_user_by_uid(uid)?;
        check_password(&self.hasher, &user.password, password)
    }

    /// Hashes `password` into a PHC string.
    pub fn hash_password(&self, password: &str) -> (res: Result<Response, Error>)
        ensures
            hash_reply(password@, res),
    {
        let hashed = self.hasher.hash(password);
        proof {
            lemma_hash_response_reply(password@, hashed);
        }
        hash_response(hashed)
    }

    /// The first user named `username`, without its password.
    pub fn fetch_user(&self, username: &str) -> (res: Result<Response, Error>)
        ensures
            res == fetch_outcome(self.users@, username@),
    {
        match find_by_name(&self.users, username) {
            Some(i) => Ok(Response::FetchUser(self.users[i].without_password())),
            None => Err(Error::NoSuchUser),
        }
    }

    /// Every user, in order, without passwords.
    pub fn get_users(&self) -> (res: Response)
        ensures
            res matches Response::GetUsers(v) && v@ == redacted_all(self.users@),
    {
        Response::GetUsers(without_passwords(&self.users))
    }

    /// The first user with uid `uid`.
    fn fetch_user_by_uid(&self, uid: u32) -> (res: Result<User, Error>)
        ensures
            match uid_index(self.users@, uid) {
                Some(i) => res == Ok::<User, Error>(self.users@[i]),
                None => res == Err::<User, Error>(Error::NoSuchUser),
            },
    {
        match find_by_uid(&self.users, uid) {
            Some(i) => Ok(self.users[i].duplicate()),
            None => Err(Error::NoSuchUser),
        }
    }

    /// Answers one request, as the daemon does for each command a client sends.
    pub fn dispatch(&self, command: &Command) -> (res: Result<Response, Error>)
        ensures
            match *command {
                Command::FetchUser(name) => res == fetch_outcome(self.users@, name@),
                Command::GetUsers() => res matches Ok(Response::GetUsers(v)) && v@ == redacted_all(
                    self.users@,
                ),
                Command::AddUser(_) => res == Ok::<Response, Error>(Response::AddUser(())),
                Command::RemoveUser(_) => res == Ok::<Response, Error>(Response::RemoveUser(())),
                Command::VerifyPassword(uid, password) => res == verify_outcome(
                    self.users@,
                    uid,
                    password@,
                ),
                Command::HashPassword(password) => hash_reply(password@, res),
                Command::SetPassword(..) => res == Ok::<Response, Error>(
                    Response::SetPassword(()),
                ),
            },
    {
        match command {
            Command::FetchUser(username) => self.fetch_user(username.as_str()),
            Command::AddUser(user) => self.add_user(user),
            Command::RemoveUser(uid) => self.remove_user(*uid),
            Command::SetPassword(uid, original_password, new_password) => self.set_password(
                *uid,
                original_password.as_str(),
                new_password.as_str(),
            ),
            Command::VerifyPassword(uid, password) => self.verify_password(*uid, password.as_str()),
            Command::HashPassword(password) => self.hash_password(password.as_str()),
            Command::GetUsers() => Ok(self.get_users()),
        }
    }
}

} // verus!
