use vstd::prelude::*;

use crate::manager::{hash_reply, hash_response, lemma_hash_response_reply};
use crate::password::{phc_string_valid, Hasher};
use crate::text::{str_equal, trim_trailing_newlines};
use crate::types::{Error, Response, User};
use crate::user::UserManager;
use crate::users::{find_by_name, find_by_uid, name_index, uid_index, verify_outcome};

verus! {

/// The answer to adding `user` to the users `users`: refused when a user of
/// that name is there already.
pub open spec fn add_outcome(users: Seq<User>, user: User) -> Result<Response, Error> {
    if exists|j: int| 0 <= j < users.len() && users[j].username@ == user.username@ {
        Err(Error::UserAlreadyExists)
    } else {
        Ok(Response::AddUser(()))
    }
}

/// The answer to fetching the user named `name` from the users file: the first
/// user of that name, as the file holds it.
pub open spec fn fetch_stored_outcome(users: Seq<User>, name: Seq<char>) -> Result<
    Response,
    Error,
> {
    match name_index(users, name) {
        Some(i) => Ok(Response::FetchUser(users[i])),
        None => Err(Error::NoSuchUser),
    }
}

/// Request handling against the users file.
///
/// Each request that reads users takes them as the users file held them when
/// the request came in (`UserManager`'s file, read by the caller); a request to
/// add a user that is accepted is followed by appending the user to the file.
#[derive(Debug)]
pub struct Commands<'a> {
    hasher: Hasher<'a>,
    user_manager: &'a UserManager,
}

impl<'a> Commands<'a> {
    /// The user manager whose file the requests go to.
    pub closed spec fn manager(&self) -> &'a UserManager {
        self.user_manager
    }

    /// The hasher that the requests use.
    pub closed spec fn hasher_used(&self) -> Hasher<'a> {
        self.hasher
    }

    pub fn new(hasher: Hasher<'a>, user_manager: &'a UserManager) -> (res: Self)
        ensures
            res.manager() == user_manager,
            res.hasher_used() == hasher,
    {
        Commands { hasher, user_manager }
    }

    /// The user manager whose file the requests go to.
    pub fn user_manager(&self) -> (res: &'a UserManager)
        ensures
            res == self.manager(),
    {
        self.user_manager
    }

    /// Decides on adding `user` to the users `users`.
    pub fn add_user(&self, users: &Vec<User>, user: &User) -> (res: Result<Response, Error>)
        ensures
            res == add_outcome(users@, *user),
    {
        match find_by_name(users, user.username.as_str()) {
            Some(i) => {
                assert(users@[i as int].username@ == user.username@);
                Err(Error::UserAlreadyExists)
            },
            None => Ok(Response::AddUser(())),
        }
    }

    /// Accepts the removal of a user.
    pub fn remove_user(&self, uid: u32) -> (res: Result<Response, Error>)
        ensures
            res == Ok::<Response, Error>(Response::RemoveUser(())),
    {
        Ok(Response::RemoveUser(()))
    }

    /// Accepts a change of password.
    pub fn set_password(&self, uid: u32, original_password: &str, new_password: &str) -> (res:
        Result<Response, Error>)
        ensures
            res == Ok::<Response, Error>(Response::SetPassword(())),
    {
        Ok(Response::SetPassword(()))
    }

    /// Checks `password` for the first user with uid `uid` among `users`.
    pub fn verify_password(&self, users: &Vec<User>, uid: u32, password: &str) -> (res: Result<
        Response,
        Error,
    >)
        ensures
            res == verify_outcome(users@, uid, password@),
    {
        let user = self.fetch_user_by_uid(users, uid)?;
        match &user.password {
            Some(user_password) => {
                let is_hash = self.is_hash(user_password.as_str());
                if !is_hash && str_equal(user_password.as_str(), password) {
                    return Ok(Response::VerifyPassword(true));
                }
                match self.hasher.verify(password, user_password.as_str()) {
                    Ok(()) => Ok(Response::VerifyPassword(true)),
                    Err(_) => Err(Error::WrongPassword),
                }
            },
            None => Ok(Response::VerifyPassword(true)),
        }
    }

    /// Hashes `password` into a PHC string.
    pub fn hash_password(&self, password: &str) -> (res: Result<Response, Error>)
        ensures
            hash_reply(password@, res),
    {
        let hashed = self.hasher.hash(password);
        proof {
            lemma_hash_response_reply(password@, hashed);
        }
        hash_response(hashed)
    }

    /// The first user named `username` among `users`, as stored.
    pub fn fetch_user(&self, users: &Vec<User>, username: &str) -> (res: Result<Response, Error>)
        ensures
            res == fetch_stored_outcome(users@, username@),
    {
        match find_by_name(users, username) {
            Some(i) => Ok(Response::FetchUser(users[i].duplicate())),
            None => Err(Error::NoSuchUser),
        }
    }

    /// All of `users`, as stored.
    pub fn get_users(&self, users: Vec<User>) -> (res: Response)
        ensures
            res matches Response::GetUsers(v) && v@ == users@,
    {
        Response::GetUsers(users)
    }

    /// The first user with uid `uid` among `users`.
    fn fetch_user_by_uid(&self, users: &Vec<User>, uid: u32) -> (res: Result<User, Error>)
        ensures
            match uid_index(users@, uid) {
                Some(i) => res == Ok::<User, Error>(users@[i]),
                None => res == Err::<User, Error>(Error::NoSuchUser),
            },
    {
        match find_by_uid(users, uid) {
            Some(i) => Ok(users[i].duplicate()),
            None => Err(Error::NoSuchUser),
        }
    }

    /// Whether `password`, without the line breaks at its end, is a PHC string.
    fn is_hash(&self, password: &str) -> (res: bool)
        ensures
            res == phc_string_valid(trim_trailing_newlines(password@)),
    {
        self.hasher.is_hash(password)
    }
}

} // verus!
