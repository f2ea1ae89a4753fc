use vstd::prelude::*;
use vstd::string::StringExecFns;

use crate::text::{trim_end_newlines, trim_trailing_newlines};

verus! {

/// Where the daemon keeps its users file.
#[derive(Debug, Clone)]
pub struct Config {
    pub users_path: String,
}

/// The users file: the daemon reads its users from it and appends new ones.
#[derive(Debug)]
pub struct UserManager {
    config: Config,
}

impl View for UserManager {
    type V = Config;

    closed spec fn view(&self) -> Config {
        self.config
    }
}

impl UserManager {
    /// A user manager for the users file that `config` names.
    ///
    /// The configuration is read, and the users file checked for existence,
    /// before this is called.
    pub fn new(config: Config) -> (res: Self)
        ensures
            res@ == config,
    {
        UserManager { config }
    }

    /// The configuration this manager was made with.
    pub fn config(&self) -> (res: &Config)
        ensures
            *res == self@,
    {
        &self.config
    }
}

/// The header of a user's entry in the users file.
pub open spec fn user_entry_header() -> Seq<char> {
    "\n\n[[user]]\n"@
}

/// The users file after a user is added: the old text without the line breaks
/// at its end, a blank line, a `[[user]]` header and the user's entry.
pub fn append_user_entry(existing: &str, user_entry: &str) -> (res: String)
    ensures
        res@ == trim_trailing_newlines(existing@) + user_entry_header() + user_entry@,
{
    let mut res = String::from_str(trim_end_newlines(existing));
    res.append("\n\n[[user]]\n");
    res.append(user_entry);
    res
}

} // verus!
