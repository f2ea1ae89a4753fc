use vstd::prelude::*;
use vstd::utf8::encode_utf8;

use argon2::password_hash::rand_core::Error as RandError;
use argon2::password_hash::rand_core::{OsRng, RngCore};
use argon2::password_hash::Error as PhcError;
use argon2::password_hash::{PasswordHash, PasswordHasher, PasswordVerifier, SaltString};
use argon2::Argon2;

use crate::text::{trim_end_newlines, trim_trailing_newlines};
use vstd::string::StrSliceExecFns;

verus! {

/// `argon2::Argon2`, the Argon2 context; opaque here.
#[verifier::external_type_specification]
#[verifier::external_body]
pub struct ExArgon2<'key>(Argon2<'key>);

/// `rand_core::Error`, a failure of a random source; opaque here.
#[verifier::external_type_specification]
#[verifier::external_body]
pub struct ExRandError(RandError);

/// `password_hash::Error`, the error of parsing, hashing and verifying; opaque here.
#[verifier::external_type_specification]
#[verifier::external_body]
pub struct ExPasswordHashError(PhcError);

/// Whether `phc` parses as a PHC string (`$<id>[$v=..][$<params>][$<salt>[$<hash>]]`),
/// i.e. whether `password_hash::PasswordHash::new` accepts it.
pub uninterp spec fn phc_string_valid(phc: Seq<char>) -> bool;

/// Whether Argon2 in its default configuration (Argon2id, version 19,
/// default parameters, no secret key) accepts `password` (as its UTF-8 bytes)
/// against the PHC string `phc`: `phc` parses, and hashing `password` with the
/// algorithm, version, parameters and salt that `phc` names gives the output
/// that `phc` holds.
pub uninterp spec fn argon2_accepts(password: Seq<char>, phc: Seq<char>) -> bool;

/// The length of `s` in bytes, in UTF-8.
pub open spec fn utf8_len(s: Seq<char>) -> nat {
    encode_utf8(s).len()
}

/// `c` is a decimal digit.
pub open spec fn is_decimal_digit(c: char) -> bool {
    '0' <= c && c <= '9'
}

/// At position `i`, `s` holds `p=` followed by nine decimal digits.
pub open spec fn parallelism_at(s: Seq<char>, i: int) -> bool {
    &&& 0 <= i
    &&& i + 11 <= s.len()
    &&& s[i] == 'p'
    &&& s[i + 1] == '='
    &&& forall|k: int| i + 2 <= k < i + 11 ==> is_decimal_digit(#[trigger] s[k])
}

/// `s` names, after `p=`, a number of at least nine digits: where that is a
/// PHC string's parallelism, it is at least 10^8 (a PHC decimal has no leading
/// zero), above Argon2's maximum of `0xFFFFFF`, and Argon2 refuses the string.
pub open spec fn oversized_parallelism(s: Seq<char>) -> bool {
    exists|i: int| parallelism_at(s, i)
}

/// `phc` is a PHC string made of `password`: it parses, Argon2 accepts
/// `password` against it, it names no oversized parallelism, and it does not
/// end in a line break.
pub open spec fn fresh_phc(password: Seq<char>, phc: Seq<char>) -> bool {
    &&& phc_string_valid(phc)
    &&& argon2_accepts(password, phc)
    &&& !oversized_parallelism(phc)
    &&& (phc.len() == 0 || phc.last() != '\n')
}

/// Whether `s` holds `p=` followed by nine decimal digits at position `i`.
fn parallelism_at_exec(s: &str, n: usize, i: usize) -> (res: bool)
    requires
        n == s@.len(),
        i + 11 <= n,
    ensures
        res == parallelism_at(s@, i as int),
{
    if s.get_char(i) != 'p' || s.get_char(i + 1) != '=' {
        return false;
    }
    let mut k: usize = i + 2;
    while k < i + 11
        invariant
            n == s@.len(),
            i + 11 <= n,
            i + 2 <= k <= i + 11,
            forall|m: int| i + 2 <= m < k ==> is_decimal_digit(#[trigger] s@[m]),
        decreases i + 11 - k,
    {
        let c = s.get_char(k);
        if !('0' <= c && c <= '9') {
            return false;
        }
        k = k + 1;
    }
    true
}

/// Whether `s` names, after `p=`, a number of at least nine digits.
pub fn names_oversized_parallelism(s: &str) -> (res: bool)
    ensures
        res == oversized_parallelism(s@),
{
    let n = s.unicode_len();
    if n < 11 {
        assert forall|j: int| !parallelism_at(s@, j) by {}
        return false;
    }
    let mut i: usize = 0;
    while i <= n - 11
        invariant
            n == s@.len(),
            11 <= n,
            i + 10 <= n,
            forall|j: int| 0 <= j < i ==> !parallelism_at(s@, j),
        decreases n - i,
    {
        if parallelism_at_exec(s, n, i) {
            return true;
        }
        i = i + 1;
    }
    assert forall|j: int| !parallelism_at(s@, j) by {}
    false
}

/// Why hashing a password failed.
#[derive(Debug)]
pub enum HashError {
    /// The operating system's random source gave no salt.
    RandomSource(RandError),
    /// Argon2 refused to hash.
    Hashing(PhcError),
}

/// The PHC string that Argon2 in its default configuration makes of `password`
/// (its UTF-8 bytes) with the salt `salt` (its bytes, B64-encoded into the
/// string): `PasswordHasher::hash_password` rendered with `Display`.
pub uninterp spec fn argon2_phc(password: Seq<char>, salt: Seq<u8>) -> Seq<char>;

/// What hashing `content` with a random salt may give: unless the random source
/// fails, it succeeds exactly when `content` is at most `0xFFFF_FFFF` bytes long
/// (Argon2's limit on a password), and a string that comes back is the PHC
/// string made of `content` with some 16-byte salt, a PHC string made of
/// `content`.
pub open spec fn hash_outcome(content: Seq<char>, res: Result<String, HashError>) -> bool {
    &&& !(res matches Err(HashError::RandomSource(_))) ==> (res is Ok <==> utf8_len(content)
        <= 0xFFFF_FFFF)
    &&& res matches Ok(phc) ==> fresh_phc(content, phc@) && exists|salt: Seq<u8>|
        salt.len() == 16 && phc@ == #[trigger] argon2_phc(content, salt)
}

/// The password hasher: Argon2 in its default configuration, which `new` sets
/// and nothing changes afterwards; `phc_string_valid` and `argon2_accepts` speak
/// of that configuration.
#[derive(Debug)]
pub struct Hasher<'a> {
    argon2: Argon2<'a>,
}

impl<'a> Hasher<'a> {
    /// A hasher with Argon2's default configuration.
    pub fn new() -> Self {
        Hasher { argon2: default_argon2() }
    }

    /// Hashes `content` with a fresh random salt into a PHC string.
    ///
    /// The salt is 16 bytes from the operating system's random source; which
    /// bytes it gets is not stated, so neither is which string comes back. Where
    /// the random source fails, the error says so.
    pub fn hash(&self, content: &str) -> (res: Result<String, HashError>)
        ensures
            hash_outcome(content@, res),
    {
        let mut salt: Vec<u8> = Vec::new();
        let mut i: usize = 0;
        while i < 16
            invariant
                i <= 16,
                salt@.len() == i,
            decreases 16 - i,
        {
            salt.push(0u8);
            i = i + 1;
        }
        match fill_random(&mut salt) {
            Ok(()) => match self.hash_with_salt(content, salt.as_slice()) {
                Ok(phc) => {
                    assert(salt@.len() == 16 && phc@ == argon2_phc(content@, salt@));
                    Ok(phc)
                },
                Err(e) => Err(HashError::Hashing(e)),
            },
            Err(e) => Err(HashError::RandomSource(e)),
        }
    }

    /// Checks `password1`, without the line breaks at its end, against the
    /// PHC string `password2`.
    ///
    /// A string that names an oversized parallelism is refused without asking
    /// Argon2, whose parameter check would overflow on it; Argon2 refuses such
    /// a string in any case, though the reason it would give (too little memory,
    /// too many threads, a malformed value, ...) may differ from the
    /// `ThreadsTooMany` error given here.
    pub fn verify(&self, password1: &str, password2: &str) -> (res: Result<
        (),
        PhcError,
    >)
        ensures
            res is Ok <==> !oversized_parallelism(password2@) && argon2_accepts(
                trim_trailing_newlines(password1@),
                password2@,
            ),
            res is Ok ==> phc_string_valid(password2@),
    {
        if names_oversized_parallelism(password2) {
            return Err(threads_too_many());
        }
        let trimmed = trim_end_newlines(password1);
        self.verify_phc(trimmed, password2)
    }

    /// Whether `content`, without the line breaks at its end, is a PHC string.
    /// Such a string is not empty and starts with `$`.
    pub fn is_hash(&self, content: &str) -> (res: bool)
        ensures
            res == phc_string_valid(trim_trailing_newlines(content@)),
            res ==> trim_trailing_newlines(content@).len() > 0 && trim_trailing_newlines(
                content@,
            )[0] == '$',
    {
        let trimmed = trim_end_newlines(content);
        phc_parses(trimmed)
    }

    /// Hashes `content` with the salt `salt` (its bytes) into a PHC string.
    ///
    /// Hashing succeeds exactly when the salt is 8 to 48 bytes long (Argon2's
    /// shortest salt; the longest that fits a PHC salt of 64 characters) and
    /// `content` is at most `0xFFFF_FFFF` bytes long, Argon2's limit on a
    /// password. A salt of fewer than 3 bytes is no input (see `argon2_hash`).
    pub fn hash_with_salt(&self, content: &str, salt: &[u8]) -> (res: Result<String, PhcError>)
        requires
            3 <= salt@.len(),
        ensures
            res is Ok <==> (8 <= salt@.len() <= 48 && utf8_len(content@) <= 0xFFFF_FFFF),
            res matches Ok(phc) ==> phc@ == argon2_phc(content@, salt@) && fresh_phc(
                content@,
                phc@,
            ),
    {
        self.argon2_hash(content, salt)
    }

    /// Encodes `salt` as a B64 salt string (`SaltString::encode_b64`), calls
    /// `PasswordHasher::hash_password` of the hasher's Argon2 on the UTF-8
    /// bytes of `password` with it, and renders the hash as its PHC string
    /// (`Display` of `PasswordHash`).
    ///
    /// Claimed, as the argon2 crate documents it for the default configuration:
    /// a string that comes back parses (`PasswordHash::new`) and is accepted for
    /// `password` by `verify_password`. Claimed, as the sources show it: the
    /// string is a function of `password` and `salt` alone (`argon2_phc`); a
    /// salt of more than 48 bytes does not encode into 64 characters
    /// (`B64Encoding` error) and one of fewer than 8 bytes is too short for
    /// Argon2 (`SaltTooShort`); the rendered string names `p=1` and ends in the
    /// B64 hash output, so not in a line break; and with the default parameters
    /// the only other error is a password longer than `MAX_PWD_LEN`
    /// (`0xFFFF_FFFF` bytes). Salts of fewer than 3 bytes encode into fewer than
    /// 4 characters and make `SaltString::as_salt` panic, hence the bound on
    /// `salt`.
    #[verifier::external_body]
    fn argon2_hash(&self, password: &str, salt: &[u8]) -> (res: Result<String, PhcError>)
        requires
            3 <= salt@.len(),
        ensures
            res is Ok <==> (8 <= salt@.len() <= 48 && utf8_len(password@) <= 0xFFFF_FFFF),
            res matches Ok(phc) ==> phc@ == argon2_phc(password@, salt@) && fresh_phc(
                password@,
                phc@,
            ),
    {
        let salt = match SaltString::encode_b64(salt) {
            Ok(salt) => salt,
            Err(e) => return Err(e),
        };
        match self.argon2.hash_password(password.as_bytes(), &salt) {
            Ok(hash) => Ok(hash.to_string()),
            Err(e) => Err(e),
        }
    }

    /// Parses `phc` with `PasswordHash::new` and calls
    /// `PasswordVerifier::verify_password` of the hasher's Argon2 on the UTF-8
    /// bytes of `password` and the parsed hash; a parse error is passed on.
    ///
    /// Claimed: the call succeeds exactly when Argon2 accepts `password`
    /// against `phc`, and it succeeds only on a string that parses.
    ///
    /// A parallelism of at least `0x2000_0000` makes `Params::new`'s check
    /// `m_cost < p_cost * 8` overflow (a panic where overflow checks are on);
    /// such a value has at least nine digits, hence the `requires`. The call
    /// takes the memory (`m` KiB) and time (`t` passes) that `phc` names;
    /// nothing bounds those here.
    #[verifier::external_body]
    fn verify_phc(&self, password: &str, phc: &str) -> (res: Result<
        (),
        PhcError,
    >)
        requires
            !oversized_parallelism(phc@),
        ensures
            res is Ok <==> argon2_accepts(password@, phc@),
            res is Ok ==> phc_string_valid(phc@),
    {
        match PasswordHash::new(phc) {
            Ok(hash) => self.argon2.verify_password(password.as_bytes(), &hash),
            Err(e) => Err(e),
        }
    }
}

/// Calls `Argon2::default()`. Nothing is claimed of the value.
#[verifier::external_body]
fn default_argon2<'a>() -> Argon2<'a> {
    Argon2::default()
}

/// The error Argon2 gives for a parallelism above its maximum
/// (`argon2::Error::ThreadsTooMany`, converted with `From` into a
/// `password_hash::Error`). Nothing is claimed of the value.
#[verifier::external_body]
fn threads_too_many() -> PhcError {
    PhcError::from(argon2::Error::ThreadsTooMany)
}

/// Calls `RngCore::try_fill_bytes` of the operating system's random source
/// (`OsRng`) on `buf`: the bytes become random, or the source's error comes
/// back. Claimed: the length of `buf` stays as it was.
#[verifier::external_body]
fn fill_random(buf: &mut Vec<u8>) -> (res: Result<(), RandError>)
    ensures
        final(buf)@.len() == old(buf)@.len(),
{
    OsRng.try_fill_bytes(buf.as_mut_slice())
}

/// Calls `PasswordHash::new` on `phc` and tells whether it parsed. Claimed, as
/// its source shows: a string that parses is not empty and starts with `$`.
#[verifier::external_body]
fn phc_parses(phc: &str) -> (res: bool)
    ensures
        res == phc_string_valid(phc@),
        res ==> phc@.len() > 0 && phc@[0] == '$',
{
    PasswordHash::new(phc).is_ok()
}

impl From<PhcError> for crate::types::Error {
    fn from(_err: PhcError) -> (res: Self) {
        crate::types::Error::PasswordHashError
    }
}

impl vstd::std_specs::convert::FromSpecImpl<PhcError> for crate::types::Error {
    open spec fn obeys_from_spec() -> bool {
        true
    }

    open spec fn from_spec(v: PhcError) -> Self {
        crate::types::Error::PasswordHashError
    }
}

} // verus!
