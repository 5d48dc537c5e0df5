use vstd::prelude::*;

verus! {

/// The bcrypt work factor used for stored credentials.
pub const PASSWORD_HASH_COST: u32 = 10;

/// Whether `password` matches the salted hash `stored`; a `stored` value that
/// is not a well-formed hash matches nothing.
pub uninterp spec fn password_verifies(password: Seq<char>, stored: Seq<char>) -> bool;

/// Relies on bcrypt::hash: a fresh random salt from the operating system, the
/// given cost, and a hash that bcrypt::verify accepts for the same password.
/// It fails only when no randomness can be drawn.
#[verifier::external_body]
pub(crate) fn hash_password(password: &str, cost: u32) -> (r: Option<String>)
    requires
        4 <= cost <= 31,
    ensures
        r matches Some(h) ==> password_verifies(password@, h@),
{
    bcrypt::hash(password, cost).ok()
}

/// Relies on bcrypt::verify: it re-hashes `password` with the salt and cost
/// read from `stored` and compares the results in constant time; an error
/// (a malformed `stored`) is a mismatch.
#[verifier::external_body]
pub(crate) fn check_password(password: &str, stored: &str) -> (r: bool)
    ensures
        r == password_verifies(password@, stored@),
{
    bcrypt::verify(password, stored).unwrap_or(false)
}

} // verus!
