use vstd::prelude::*;

use crate::commands::{add_outcome, fetch_stored_outcome};
use crate::config::PartialConfig;
use crate::manager::{fetch_outcome, hash_reply, named_user, users_from_entries};
use crate::password::{
    argon2_accepts, fresh_phc, oversized_parallelism, phc_string_valid, utf8_len,
};
use crate::text::{lemma_trim_no_trailing_newline, trim_trailing_newlines};
use crate::types::{redacted, Error, Response, User};
use crate::users::{
    first_with_name, first_with_uid, lemma_first_with_name_unique, lemma_first_with_uid_unique, lemma_name_index_found, lemma_uid_index_found, redacted_all,
    uid_index, verify_outcome,
};

verus! {

/// Fetching a user never hands out its password.
pub proof fn law_fetch_hides_password(users: Seq<User>, name: Seq<char>)
    ensures
        fetch_outcome(users, name) matches Ok(Response::FetchUser(u)) ==> u.password is None,
{
}

/// Listing the users keeps every user, in order, and hands out no password.
pub proof fn law_listing_hides_passwords(users: Seq<User>)
    ensures
        redacted_all(users).len() == users.len(),
        forall|i: int|
            0 <= i < users.len() ==> (#[trigger] redacted_all(users)[i]).password is None
                && redacted_all(users)[i] == (User { password: None, ..users[i] }),
{
}

/// A user configured under a name is the user that fetching that name gives
/// (without its password), when the configuration holds each name once.
pub proof fn law_configured_user_is_fetched(config: PartialConfig, k: int)
    requires
        config.well_formed(),
        0 <= k < config.users@.len(),
    ensures
        fetch_outcome(users_from_entries(config.users@), config.users@[k].0@) == Ok::<
            Response,
            Error,
        >(Response::FetchUser(redacted(named_user(config.users@[k])))),
{
    let entries = config.users@;
    let users = users_from_entries(entries);
    let name = entries[k].0@;
    assert forall|j: int| 0 <= j < k implies users[j].username@ != name by {
        assert(entries[j].0@ != entries[k].0@);
    }
    assert(first_with_name(users, name, k));
    let c = choose|i: int| first_with_name(users, name, i);
    lemma_first_with_name_unique(users, name, k, c);
}

/// Fetching a name that some user has finds a user, and fetching a name that
/// no user has answers `NoSuchUser`.
pub proof fn law_fetch_finds_known_names(users: Seq<User>, name: Seq<char>)
    ensures
        (exists|j: int| 0 <= j < users.len() && users[j].username@ == name) ==> fetch_outcome(
            users,
            name,
        ) is Ok,
        (forall|j: int| 0 <= j < users.len() ==> users[j].username@ != name) ==> fetch_outcome(
            users,
            name,
        ) == Err::<Response, Error>(Error::NoSuchUser),
{
    if exists|j: int| 0 <= j < users.len() && users[j].username@ == name {
        let j = choose|j: int| 0 <= j < users.len() && users[j].username@ == name;
        lemma_name_index_found(users, name, j);
    }
}

/// A password check for a uid that no user has answers `NoSuchUser`; for a
/// uid that some user has, it never does.
pub proof fn law_unknown_uid(users: Seq<User>, uid: u32, password: Seq<char>)
    ensures
        (forall|j: int| 0 <= j < users.len() ==> users[j].uid != uid) ==> verify_outcome(
            users,
            uid,
            password,
        ) == Err::<Response, Error>(Error::NoSuchUser),
        (exists|j: int| 0 <= j < users.len() && users[j].uid == uid) ==> verify_outcome(
            users,
            uid,
            password,
        ) != Err::<Response, Error>(Error::NoSuchUser),
{
    if exists|j: int| 0 <= j < users.len() && users[j].uid == uid {
        let j = choose|j: int| 0 <= j < users.len() && users[j].uid == uid;
        lemma_uid_index_found(users, uid, j);
    }
}

/// A password check answers either that the password is right, or an error:
/// never that it is wrong by a `false`.
pub proof fn law_verify_answers(users: Seq<User>, uid: u32, password: Seq<char>)
    ensures
        verify_outcome(users, uid, password) matches Ok(r) ==> r == Response::VerifyPassword(
            true,
        ),
        verify_outcome(users, uid, password) matches Err(e) ==> e == Error::NoSuchUser || e
            == Error::WrongPassword,
{
}

/// A user without a password passes every password check.
pub proof fn law_no_password_passes(users: Seq<User>, uid: u32, password: Seq<char>)
    requires
        uid_index(users, uid) matches Some(i) && users[i].password is None,
    ensures
        verify_outcome(users, uid, password) == Ok::<Response, Error>(
            Response::VerifyPassword(true),
        ),
{
}

/// A stored password that is not a PHC string passes the check with itself.
pub proof fn law_plain_password_passes(users: Seq<User>, uid: u32, password: String)
    requires
        uid_index(users, uid) matches Some(i) && users[i].password == Some(password),
        !phc_string_valid(trim_trailing_newlines(password@)),
    ensures
        verify_outcome(users, uid, password@) == Ok::<Response, Error>(
            Response::VerifyPassword(true),
        ),
{
}

/// A password that does not end in a line break passes `Hasher::verify`
/// against a PHC string that `Hasher::hash` made of it.
pub proof fn law_hash_then_verify(password: Seq<char>, phc: Seq<char>)
    requires
        argon2_accepts(password, phc),
        password.len() == 0 || password.last() != '\n',
    ensures
        argon2_accepts(trim_trailing_newlines(password), phc),
{
    lemma_trim_no_trailing_newline(password);
}

/// A user whose stored password is what a request to hash `password` gave
/// passes the check with `password`, when `password` does not end in a line
/// break.
pub proof fn law_hashed_password_passes(
    users: Seq<User>,
    uid: u32,
    password: Seq<char>,
    phc: String,
)
    requires
        hash_reply(password, Ok(Response::HashPassword(phc))),
        uid_index(users, uid) matches Some(i) && users[i].password == Some(phc),
        password.len() == 0 || password.last() != '\n',
    ensures
        verify_outcome(users, uid, password) == Ok::<Response, Error>(
            Response::VerifyPassword(true),
        ),
{
    lemma_trim_no_trailing_newline(password);
}

/// A stored password that is no PHC string and does not end in a line break
/// passes the check with itself and with nothing else.
pub proof fn law_plain_password_is_exact(
    users: Seq<User>,
    uid: u32,
    stored: String,
    password: Seq<char>,
)
    requires
        uid_index(users, uid) matches Some(i) && users[i].password == Some(stored),
        !phc_string_valid(stored@),
        stored@.len() == 0 || stored@.last() != '\n',
    ensures
        verify_outcome(users, uid, password) == if password == stored@ {
            Ok::<Response, Error>(Response::VerifyPassword(true))
        } else {
            Err::<Response, Error>(Error::WrongPassword)
        },
{
    lemma_trim_no_trailing_newline(stored@);
}

/// A stored PHC string that names a parallelism beyond Argon2's maximum passes
/// no password check.
pub proof fn law_oversized_parallelism_refused(
    users: Seq<User>,
    uid: u32,
    stored: String,
    password: Seq<char>,
)
    requires
        uid_index(users, uid) matches Some(i) && users[i].password == Some(stored),
        phc_string_valid(trim_trailing_newlines(stored@)),
        oversized_parallelism(stored@),
    ensures
        verify_outcome(users, uid, password) == Err::<Response, Error>(Error::WrongPassword),
{
}

/// A PHC string that hashing made is taken for a hash by `Hasher::is_hash`.
pub proof fn law_fresh_hash_is_hash(password: Seq<char>, phc: Seq<char>)
    requires
        fresh_phc(password, phc),
    ensures
        phc_string_valid(trim_trailing_newlines(phc)),
{
    lemma_trim_no_trailing_newline(phc);
}

/// Once a user is in the users file, adding a user of the same name is refused.
pub proof fn law_added_name_is_taken(users: Seq<User>, user: User, other: User)
    requires
        other.username@ == user.username@,
    ensures
        add_outcome(users.push(user), other) == Err::<Response, Error>(Error::UserAlreadyExists),
{
    assert(users.push(user)[users.len() as int] == user);
}

/// A password check passes only for the first user with the uid, and only when
/// that user has no password, or its stored password is plain text (no PHC
/// string once its line breaks at the end are cut) equal to the given one, or
/// Argon2 accepts the given password, its line breaks at the end cut, against
/// the stored string.
pub proof fn law_password_check_sound(users: Seq<User>, uid: u32, password: Seq<char>)
    ensures
        verify_outcome(users, uid, password) is Ok ==> exists|i: int|
            #[trigger] first_with_uid(users, uid, i) && match users[i].password {
                None => true,
                Some(p) => (!phc_string_valid(trim_trailing_newlines(p@)) && p@ == password)
                    || argon2_accepts(trim_trailing_newlines(password), p@),
            },
{
    if verify_outcome(users, uid, password) is Ok {
        let i = uid_index(users, uid)->0;
        assert(first_with_uid(users, uid, i));
    }
}

/// Against a stored PHC string, a password passes only when Argon2 accepts it,
/// its line breaks at the end cut, against that string.
pub proof fn law_hashed_password_needs_argon2(
    users: Seq<User>,
    uid: u32,
    i: int,
    stored: String,
    password: Seq<char>,
)
    requires
        first_with_uid(users, uid, i),
        users[i].password == Some(stored),
        phc_string_valid(trim_trailing_newlines(stored@)),
    ensures
        verify_outcome(users, uid, password) is Ok ==> argon2_accepts(
            trim_trailing_newlines(password),
            stored@,
        ),
{
    let k = choose|k: int| first_with_uid(users, uid, k);
    lemma_first_with_uid_unique(users, uid, i, k);
}

/// A password check for a uid that a user has, whose answer is not a pass, is
/// `WrongPassword`.
pub proof fn law_failed_check_is_wrong_password(
    users: Seq<User>,
    uid: u32,
    i: int,
    password: Seq<char>,
)
    requires
        first_with_uid(users, uid, i),
    ensures
        verify_outcome(users, uid, password) is Err ==> verify_outcome(users, uid, password)
            == Err::<Response, Error>(Error::WrongPassword),
        users[i].password is None ==> verify_outcome(users, uid, password) == Ok::<
            Response,
            Error,
        >(Response::VerifyPassword(true)),
{
    let k = choose|k: int| first_with_uid(users, uid, k);
    lemma_first_with_uid_unique(users, uid, i, k);
}

/// Hashing a password of at most `0xFFFF_FFFF` bytes gives its PHC string
/// unless the random source fails; only a longer password gives
/// `PasswordHashError`; a string that comes back is accepted for the password.
pub proof fn law_hash_fails_only_on_length_or_random(
    password: Seq<char>,
    res: Result<Response, Error>,
)
    requires
        hash_reply(password, res),
    ensures
        utf8_len(password) <= 0xFFFF_FFFF ==> (res matches Ok(Response::HashPassword(_)) || res
            == Err::<Response, Error>(Error::RandomSourceError)),
        utf8_len(password) > 0xFFFF_FFFF ==> res is Err,
        res matches Ok(Response::HashPassword(phc)) ==> phc_string_valid(phc@)
            && argon2_accepts(password, phc@),
        res matches Err(e) ==> e == Error::PasswordHashError || e == Error::RandomSourceError,
{
}

/// Adding a user whose name any user in the file has is refused with
/// `UserAlreadyExists`; a name that no user has is accepted.
pub proof fn law_add_refuses_exactly_taken_names(users: Seq<User>, user: User)
    ensures
        (exists|j: int| 0 <= j < users.len() && users[j].username@ == user.username@)
            ==> add_outcome(users, user) == Err::<Response, Error>(Error::UserAlreadyExists),
        (forall|j: int| 0 <= j < users.len() ==> users[j].username@ != user.username@)
            ==> add_outcome(users, user) == Ok::<Response, Error>(Response::AddUser(())),
{
}

/// Fetching a name from the users file gives the first user of that name, as
/// stored, when some user has it, and `NoSuchUser` when none has.
pub proof fn law_stored_fetch_gives_first_named_user(users: Seq<User>, name: Seq<char>)
    ensures
        forall|i: int|
            #[trigger] first_with_name(users, name, i) ==> fetch_stored_outcome(users, name)
                == Ok::<Response, Error>(Response::FetchUser(users[i])),
        fetch_stored_outcome(users, name) matches Ok(Response::FetchUser(u)) ==> u.username@
            == name,
        (exists|j: int| 0 <= j < users.len() && users[j].username@ == name) ==> fetch_stored_outcome(
            users,
            name,
        ) is Ok,
        (forall|j: int| 0 <= j < users.len() ==> users[j].username@ != name)
            ==> fetch_stored_outcome(users, name) == Err::<Response, Error>(Error::NoSuchUser),
{
    assert forall|i: int| #[trigger] first_with_name(users, name, i) implies fetch_stored_outcome(
        users,
        name,
    ) == Ok::<Response, Error>(Response::FetchUser(users[i])) by {
        let k = choose|k: int| first_with_name(users, name, k);
        lemma_first_with_name_unique(users, name, i, k);
    }
    if exists|j: int| 0 <= j < users.len() && users[j].username@ == name {
        let j = choose|j: int| 0 <= j < users.len() && users[j].username@ == name;
        lemma_name_index_found(users, name, j);
    }
}

/// Fetching a name from the daemon gives the first user of that name, without
/// its password.
pub proof fn law_fetch_gives_first_named_user(users: Seq<User>, name: Seq<char>)
    ensures
        forall|i: int|
            #[trigger] first_with_name(users, name, i) ==> fetch_outcome(users, name) == Ok::<
                Response,
                Error,
            >(Response::FetchUser(User { password: None, ..users[i] })),
        fetch_outcome(users, name) matches Ok(Response::FetchUser(u)) ==> u.username@ == name,
{
    assert forall|i: int| #[trigger] first_with_name(users, name, i) implies fetch_outcome(
        users,
        name,
    ) == Ok::<Response, Error>(Response::FetchUser(User { password: None, ..users[i] })) by {
        let k = choose|k: int| first_with_name(users, name, k);
        lemma_first_with_name_unique(users, name, i, k);
    }
}

} // verus!
