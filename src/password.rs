//! Password hashing and checking with bcrypt.

use vstd::prelude::*;

verus! {

/// bcrypt's default work factor, used unless another is configured.
pub const DEFAULT_COST: u32 = 12;

/// What bcrypt's verification returns for a password and a stored hash:
/// `None` when the hash does not parse, otherwise whether the password
/// matches it.
pub uninterp spec fn password_check(password: Seq<char>, hash: Seq<char>) -> Option<bool>;

/// Relies on bcrypt::hash: the password is hashed under a fresh random salt
/// at the given cost; it fails for a cost outside 4 to 31 or when the system's
/// randomness fails, and the hash it returns verifies against the password.
#[verifier::external_body]
pub(crate) fn hash_password(password: &str, cost: u32) -> (r: Option<String>)
    ensures
        cost < 4 || cost > 31 ==> r is None,
        r matches Some(h) ==> password_check(password@, h@) == Some(true),
{
    bcrypt::hash(password, cost).ok()
}

/// Relies on bcrypt::verify: an error when the hash does not parse, otherwise
/// whether the password hashes to it under the salt and cost it records.
#[verifier::external_body]
pub(crate) fn check_password(password: &str, hash: &str) -> (r: Option<bool>)
    ensures
        r == password_check(password@, hash@),
{
    bcrypt::verify(password, hash).ok()
}

} // verus!
