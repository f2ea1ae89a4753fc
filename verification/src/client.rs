use vstd::prelude::*;

use crate::types::{Error, Response, User};

verus! {

// A client sends a command to the daemon and reads back its answer,
// `Result<Response, Error>`; these turn that answer into what the client's
// call returns. The daemon answers each command with the response of the same
// kind, so an answer of another kind is no input of theirs.

/// The outcome of a request whose success carries nothing (adding or removing a
/// user, setting a password): success, or the daemon's error.
pub fn unit_reply(reply: Result<Response, Error>) -> (res: Result<(), Error>)
    ensures
        match reply {
            Ok(_) => res == Ok::<(), Error>(()),
            Err(e) => res == Err::<(), Error>(e),
        },
{
    match reply {
        Ok(_) => Ok(()),
        Err(e) => Err(e),
    }
}

/// The outcome of a password check: success exactly when the daemon accepted
/// the password; a refusal by `false` is `WrongPassword`; else the daemon's
/// error.
pub fn verify_reply(reply: Result<Response, Error>) -> (res: Result<(), Error>)
    requires
        reply matches Ok(r) ==> r is VerifyPassword,
    ensures
        match reply {
            Ok(Response::VerifyPassword(true)) => res == Ok::<(), Error>(()),
            Ok(_) => res == Err::<(), Error>(Error::WrongPassword),
            Err(e) => res == Err::<(), Error>(e),
        },
{
    match reply {
        Ok(Response::VerifyPassword(true)) => Ok(()),
        Ok(_) => Err(Error::WrongPassword),
        Err(e) => Err(e),
    }
}

/// The user that the daemon fetched, or its error.
pub fn fetch_user_reply(reply: Result<Response, Error>) -> (res: Result<User, Error>)
    requires
        reply matches Ok(r) ==> r is FetchUser,
    ensures
        match reply {
            Ok(Response::FetchUser(user)) => res == Ok::<User, Error>(user),
            Ok(_) => false,
            Err(e) => res == Err::<User, Error>(e),
        },
{
    match reply {
        Ok(Response::FetchUser(user)) => Ok(user),
        Ok(_) => {
            assert(false);
            Err(Error::NoSuchUser)
        },
        Err(e) => Err(e),
    }
}

/// The users that the daemon listed, or its error.
pub fn get_users_reply(reply: Result<Response, Error>) -> (res: Result<Vec<User>, Error>)
    requires
        reply matches Ok(r) ==> r is GetUsers,
    ensures
        match reply {
            Ok(Response::GetUsers(users)) => res matches Ok(v) && v@ == users@,
            Ok(_) => false,
            Err(e) => res == Err::<Vec<User>, Error>(e),
        },
{
    match reply {
        Ok(Response::GetUsers(users)) => Ok(users),
        Ok(_) => {
            assert(false);
            Err(Error::NoSuchUser)
        },
        Err(e) => Err(e),
    }
}

} // verus!
