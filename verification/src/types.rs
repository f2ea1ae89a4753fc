use vstd::prelude::*;

verus! {

/// A user account as the daemon stores it.
///
/// `shell` and `home` are paths, held as their text.
#[derive(Debug, Clone, PartialEq, Eq)]
pub struct User {
    pub uid: u32,
    pub username: String,
    pub display_name: Option<String>,
    pub password: Option<String>,
    pub shell: String,
    pub home: String,
}

/// The errors that the daemon answers a request with.
#[derive(Debug, Clone, PartialEq, Eq)]
pub enum Error {
    NoSuchUser,
    WrongPassword,
    UserAlreadyExists,
    PasswordHashError,
    /// A failure of the channel to the daemon, with its description.
    IpcError(String),
    /// The operating system's random source gave no salt to hash with.
    RandomSourceError,
}

/// A request to the daemon.
#[derive(Debug, Clone, PartialEq, Eq)]
pub enum Command {
    FetchUser(String),
    GetUsers(),
    AddUser(User),
    RemoveUser(u32),
    VerifyPassword(u32, String),
    HashPassword(String),
    SetPassword(u32, String, String),
}

/// The daemon's answer to a request that succeeded.
#[derive(Debug, PartialEq, Eq)]
pub enum Response {
    FetchUser(User),
    GetUsers(Vec<User>),
    AddUser(()),
    RemoveUser(()),
    VerifyPassword(bool),
    HashPassword(String),
    SetPassword(()),
}

/// The user `u` with its password taken out.
pub open spec fn redacted(u: User) -> User {
    User { password: None, ..u }
}

impl User {
    /// A copy of this user, field for field.
    pub fn duplicate(&self) -> (res: User)
        ensures
            res == *self,
    {
        User {
            uid: self.uid,
            username: self.username.clone(),
            display_name: copy_opt_string(&self.display_name),
            password: copy_opt_string(&self.password),
            shell: self.shell.clone(),
            home: self.home.clone(),
        }
    }

    /// A copy of this user with its password taken out.
    pub fn without_password(&self) -> (res: User)
        ensures
            res == redacted(*self),
    {
        User {
            uid: self.uid,
            username: self.username.clone(),
            display_name: copy_opt_string(&self.display_name),
            password: None,
            shell: self.shell.clone(),
            home: self.home.clone(),
        }
    }
}

/// A copy of an optional string.
pub fn copy_opt_string(s: &Option<String>) -> (res: Option<String>)
    ensures
        res == *s,
{
    match s {
        Some(t) => Some(t.clone()),
        None => None,
    }
}

} // verus!
