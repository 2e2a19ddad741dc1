//! Registration of a user under a salted, slow hash of the password.

use bcrypt::BcryptError;
use vstd::prelude::*;

verus! {

#[verifier::external_type_specification]
#[verifier::external_body]
pub struct ExBcryptError(BcryptError);

/// The length of a bcrypt hash string: `$2b$`, two cost digits, `$`, and
/// 53 characters of salt and digest.
pub open spec fn bcrypt_hash_len() -> nat {
    60
}

/// A registered user; the password itself is never stored.
pub struct User {
    pub username: String,
    pub password_hash: String,
}

/// The bcrypt hash string (version 2b, cost 12) of `password` under the
/// 16-byte `salt`.
pub uninterp spec fn bcrypt_hash_of(password: Seq<char>, salt: Seq<u8>) -> Seq<char>;

/// The fixed start of a version 2b hash string at cost 12.
pub open spec fn bcrypt_prefix() -> Seq<char> {
    seq!['$', '2', 'b', '$', '1', '2', '$']
}

/// Relies on `bcrypt::hash` at the default cost (12): on success the 2b
/// hash string of `password` under some salt of sixteen bytes, sixty
/// characters long and starting `$2b$12$`. The salt is drawn from the
/// operating system, so nothing says which one.
#[verifier::external_body]
fn hash_password(password: &str) -> (r: Result<String, BcryptError>)
    ensures
        r is Ok ==> r->Ok_0@.len() == bcrypt_hash_len(),
        r is Ok ==> r->Ok_0@.subrange(0, 7) == bcrypt_prefix(),
        r is Ok ==> exists|salt: Seq<u8>|
            salt.len() == 16 && r->Ok_0@ == bcrypt_hash_of(password@, salt),
{
    bcrypt::hash(password, bcrypt::DEFAULT_COST)
}

/// The user for `username` with the outcome of hashing the password: the
/// hash is stored as it came; a hashing failure is handed back unchanged.
pub fn user_from_hash(username: String, hashed: Result<String, BcryptError>) -> (r: Result<
    User,
    BcryptError,
>)
    ensures
        r is Ok <==> hashed is Ok,
        hashed is Ok ==> r->Ok_0.username@ == username@ && r->Ok_0.password_hash@
            == hashed->Ok_0@,
        hashed is Err ==> r == Err::<User, BcryptError>(hashed->Err_0),
{
    match hashed {
        Ok(password_hash) => Ok(User { username, password_hash }),
        Err(e) => Err(e),
    }
}

/// Registers `username`, keeping only a salted bcrypt hash of `password`.
/// Success is the hashing's to decide; a failure of it is handed back
/// unchanged.
pub fn register_user(username: String, password: String) -> (r: Result<User, BcryptError>)
    ensures
        r is Ok ==> r->Ok_0.username@ == username@,
        r is Ok ==> r->Ok_0.password_hash@.len() == bcrypt_hash_len()
            && r->Ok_0.password_hash@.subrange(0, 7) == bcrypt_prefix(),
        r is Ok ==> exists|salt: Seq<u8>|
            salt.len() == 16 && r->Ok_0.password_hash@ == bcrypt_hash_of(password@, salt),
{
    let hashed = hash_password(password.as_str());
    user_from_hash(username, hashed)
}

} // verus!
