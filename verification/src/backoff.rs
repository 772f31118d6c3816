use vstd::prelude::*;
use std::time::Duration;
use adaptive_backoff::prelude::{Backoff, BackoffBuilder, ExponentialBackoff, ExponentialBackoffBuilder};

verus! {

#[verifier::external_type_specification]
#[verifier::external_body]
pub struct ExExponentialBackoff(ExponentialBackoff);

/// The smallest delay, in milliseconds, that this backoff can hand out: the
/// minimum it was built with.
pub uninterp spec fn backoff_min_ms(b: ExponentialBackoff) -> u64;

/// The largest delay, in milliseconds, that this backoff can hand out: the
/// maximum it was built with.
pub uninterp spec fn backoff_max_ms(b: ExponentialBackoff) -> u64;

/// Relies on adaptive_backoff's `ExponentialBackoffBuilder`: `build` with a
/// minimum delay given returns `Ok`, and the backoff keeps the minimum and
/// maximum it was built with — here 1 s and 300 s.
#[verifier::external_body]
fn build_backoff() -> (r: ExponentialBackoff)
    ensures
        backoff_min_ms(r) == 1000,
        backoff_max_ms(r) == 300_000,
{
    let mut builder = ExponentialBackoffBuilder::default();
    builder.min(Duration::from_secs(1)).max(Duration::from_secs(300));
    builder.build().unwrap()
}

/// Relies on adaptive_backoff's `ExponentialBackoff::wait`: the delay is the
/// next exponential step clamped between the minimum and the maximum the
/// backoff was built with, and neither bound changes.
#[verifier::external_body]
pub(crate) fn backoff_wait_ms(b: &mut ExponentialBackoff) -> (r: u64)
    ensures
        backoff_min_ms(*old(b)) <= backoff_max_ms(*old(b)) ==> backoff_min_ms(*old(b)) <= r <= backoff_max_ms(*old(b)),
        backoff_min_ms(*final(b)) == backoff_min_ms(*old(b)),
        backoff_max_ms(*final(b)) == backoff_max_ms(*old(b)),
{
    b.wait().as_millis() as u64
}

/// The reconnect backoff the controller runs with: exponential delays held
/// between 1 s and 300 s.
pub fn create_backoff() -> (r: ExponentialBackoff)
    ensures
        backoff_min_ms(r) == 1000,
        backoff_max_ms(r) == 300_000,
{
    build_backoff()
}

} // verus!
