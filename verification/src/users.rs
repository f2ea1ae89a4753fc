use vstd::prelude::*;

use crate::password::{argon2_accepts, oversized_parallelism, phc_string_valid, Hasher};
use crate::text::{str_equal, trim_trailing_newlines};
use crate::types::{redacted, Error, Response, User};

verus! {

/// `users[i]` is the first user whose uid is `uid`.
pub open spec fn first_with_uid(users: Seq<User>, uid: u32, i: int) -> bool {
    &&& 0 <= i < users.len()
    &&& users[i].uid == uid
    &&& forall|j: int| 0 <= j < i ==> users[j].uid != uid
}

/// `users[i]` is the first user whose name is `name`.
pub open spec fn first_with_name(users: Seq<User>, name: Seq<char>, i: int) -> bool {
    &&& 0 <= i < users.len()
    &&& users[i].username@ == name
    &&& forall|j: int| 0 <= j < i ==> users[j].username@ != name
}

/// The position of the first user whose uid is `uid`, if there is one.
pub open spec fn uid_index(users: Seq<User>, uid: u32) -> Option<int> {
    if exists|i: int| first_with_uid(users, uid, i) {
        Some(choose|i: int| first_with_uid(users, uid, i))
    } else {
        None
    }
}

/// The position of the first user whose name is `name`, if there is one.
pub open spec fn name_index(users: Seq<User>, name: Seq<char>) -> Option<int> {
    if exists|i: int| first_with_name(users, name, i) {
        Some(choose|i: int| first_with_name(users, name, i))
    } else {
        None
    }
}

/// Every user, in order, with the password taken out.
pub open spec fn redacted_all(users: Seq<User>) -> Seq<User> {
    users.map_values(|u: User| redacted(u))
}

/// The answer to a password check for a user whose stored password is `stored`.
///
/// A user without a password passes any check. A stored password that is not a
/// PHC string (once the line breaks at its end are taken off) passes when it
/// equals the given password. Otherwise the stored password must be a PHC
/// string that names no oversized parallelism, and the given password, without
/// the line breaks at its end, must be accepted by Argon2 against it.
pub open spec fn password_outcome(stored: Option<String>, password: Seq<char>) -> Result<
    Response,
    Error,
> {
    match stored {
        None => Ok(Response::VerifyPassword(true)),
        Some(p) => if (!phc_string_valid(trim_trailing_newlines(p@)) && p@ == password)
            || (phc_string_valid(p@) && !oversized_parallelism(p@) && argon2_accepts(
            trim_trailing_newlines(password),
            p@,
        )) {
            Ok(Response::VerifyPassword(true))
        } else {
            Err(Error::WrongPassword)
        },
    }
}

/// The answer to checking `password` for the first user with uid `uid`.
pub open spec fn verify_outcome(users: Seq<User>, uid: u32, password: Seq<char>) -> Result<
    Response,
    Error,
> {
    match uid_index(users, uid) {
        Some(i) => password_outcome(users[i].password, password),
        None => Err(Error::NoSuchUser),
    }
}

/// Two first positions of the same uid are the same position.
pub proof fn lemma_first_with_uid_unique(users: Seq<User>, uid: u32, i: int, k: int)
    requires
        first_with_uid(users, uid, i),
        first_with_uid(users, uid, k),
    ensures
        i == k,
{
    if i < k {
        assert(users[i].uid != uid);
    } else if k < i {
        assert(users[k].uid != uid);
    }
}

/// Two first positions of the same name are the same position.
pub proof fn lemma_first_with_name_unique(users: Seq<User>, name: Seq<char>, i: int, k: int)
    requires
        first_with_name(users, name, i),
        first_with_name(users, name, k),
    ensures
        i == k,
{
    if i < k {
        assert(users[i].username@ != name);
    } else if k < i {
        assert(users[k].username@ != name);
    }
}

/// Where some user has uid `uid`, a first one has it.
pub proof fn lemma_uid_index_found(users: Seq<User>, uid: u32, j: int)
    requires
        0 <= j < users.len(),
        users[j].uid == uid,
    ensures
        uid_index(users, uid) is Some,
    decreases j,
{
    if exists|k: int| 0 <= k < j && users[k].uid == uid {
        let k = choose|k: int| 0 <= k < j && users[k].uid == uid;
        lemma_uid_index_found(users, uid, k);
    } else {
        assert(first_with_uid(users, uid, j));
    }
}

/// Where some user has name `name`, a first one has it.
pub proof fn lemma_name_index_found(users: Seq<User>, name: Seq<char>, j: int)
    requires
        0 <= j < users.len(),
        users[j].username@ == name,
    ensures
        name_index(users, name) is Some,
    decreases j,
{
    if exists|k: int| 0 <= k < j && users[k].username@ == name {
        let k = choose|k: int| 0 <= k < j && users[k].username@ == name;
        lemma_name_index_found(users, name, k);
    } else {
        assert(first_with_name(users, name, j));
    }
}

/// The position of the first user whose uid is `uid` (`Iterator::position`).
pub fn find_by_uid(users: &Vec<User>, uid: u32) -> (res: Option<usize>)
    ensures
        match res {
            Some(i) => uid_index(users@, uid) == Some(i as int),
            None => uid_index(users@, uid) is None,
        },
        res is None <==> forall|j: int| 0 <= j < users@.len() ==> users@[j].uid != uid,
{
    let mut i: usize = 0;
    while i < users.len()
        invariant
            i <= users@.len(),
            forall|j: int| 0 <= j < i ==> users@[j].uid != uid,
        decreases users@.len() - i,
    {
        if users[i].uid == uid {
            proof {
                assert(first_with_uid(users@, uid, i as int));
                let k = choose|k: int| first_with_uid(users@, uid, k);
                lemma_first_with_uid_unique(users@, uid, i as int, k);
            }
            return Some(i);
        }
        i = i + 1;
    }
    None
}

/// The position of the first user whose name is `name`.
pub fn find_by_name(users: &Vec<User>, name: &str) -> (res: Option<usize>)
    ensures
        match res {
            Some(i) => name_index(users@, name@) == Some(i as int),
            None => name_index(users@, name@) is None,
        },
        res is None <==> forall|j: int| 0 <= j < users@.len() ==> users@[j].username@ != name@,
{
    let mut i: usize = 0;
    while i < users.len()
        invariant
            i <= users@.len(),
            forall|j: int| 0 <= j < i ==> users@[j].username@ != name@,
        decreases users@.len() - i,
    {
        if str_equal(users[i].username.as_str(), name) {
            proof {
                assert(first_with_name(users@, name@, i as int));
                let k = choose|k: int| first_with_name(users@, name@, k);
                lemma_first_with_name_unique(users@, name@, i as int, k);
            }
            return Some(i);
        }
        i = i + 1;
    }
    None
}

/// Checks `password` against the stored password `stored`.
pub fn check_password(hasher: &Hasher, stored: &Option<String>, password: &str) -> (res: Result<
    Response,
    Error,
>)
    ensures
        res == password_outcome(*stored, password@),
{
    match stored {
        Some(user_password) => {
            let is_hash = hasher.is_hash(user_password.as_str());
            if !is_hash && str_equal(user_password.as_str(), password) {
                return Ok(Response::VerifyPassword(true));
            }
            match hasher.verify(password, user_password.as_str()) {
                Ok(()) => Ok(Response::VerifyPassword(true)),
                Err(_) => Err(Error::WrongPassword),
            }
        },
        None => Ok(Response::VerifyPassword(true)),
    }
}

/// Every user, in order, with the password taken out.
pub fn without_passwords(users: &Vec<User>) -> (res: Vec<User>)
    ensures
        res@ == redacted_all(users@),
{
    let mut res: Vec<User> = Vec::new();
    let mut i: usize = 0;
    while i < users.len()
        invariant
            i <= users@.len(),
            res@ == redacted_all(users@.subrange(0, i as int)),
        decreases users@.len() - i,
    {
        let u = users[i].without_password();
        proof {
            assert(redacted_all(users@.subrange(0, i + 1)) =~= redacted_all(
                users@.subrange(0, i as int),
            ).push(redacted(users@[i as int])));
        }
        res.push(u);
        i = i + 1;
    }
    proof {
        assert(users@.subrange(0, i as int) =~= users@);
    }
    res
}

} // verus!
