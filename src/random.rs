use rand::Rng;
use vstd::prelude::*;

verus! {

/// Relies on `rand::Rng::random_range` over `rand::rng()` (the thread-local
/// generator): an inclusive integer range yields a value inside it. The call
/// panics on an empty range, which `requires` rules out.
#[verifier::external_body]
pub(crate) fn random_u64_in(lo: u64, hi: u64) -> (r: u64)
    requires
        lo <= hi,
    ensures
        lo <= r <= hi,
{
    rand::rng().random_range(lo..=hi)
}

/// Relies on `uuid::Uuid::new_v4` and its `Display` impl, which writes the
/// hyphenated lower-case form: always 36 characters.
#[verifier::external_body]
pub(crate) fn random_uuid() -> (r: String)
    ensures
        r@.len() == 36,
{
    uuid::Uuid::new_v4().to_string()
}

/// A uniform draw from `lo..=hi` for `u32` bounds.
pub(crate) fn random_u32_in(lo: u32, hi: u32) -> (r: u32)
    requires
        lo <= hi,
    ensures
        lo <= r <= hi,
{
    random_u64_in(lo as u64, hi as u64) as u32
}

} // verus!
