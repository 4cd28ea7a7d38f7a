//! The retry policy that requests are sent under.

use vstd::prelude::*;
use reqwest_retry::policies::ExponentialBackoff;

verus! {

/// The backoff policy of the retrying transport. It is built once and
/// handed to the transport as it is; proofs do not look inside it.
#[verifier::external_type_specification]
#[verifier::external_body]
pub struct ExExponentialBackoff(ExponentialBackoff);

/// How a request that fails transiently is sent again: up to `max_retries`
/// more times, the waits growing by the factor `backoff_exponent`.
/// `backoff` is the same policy in the form the transport takes.
#[derive(Clone, Copy, Debug)]
pub struct RetryPolicy {
    pub backoff_exponent: u32,
    pub max_retries: u32,
    pub backoff: ExponentialBackoff,
}

/// `ExponentialBackoff::builder()`, then `backoff_exponent` and
/// `build_with_max_retries` on the builder. The claim: the policy built
/// has the exponent and the number of retries given here, which are read
/// back from its fields `backoff_exponent` and `max_n_retries`.
#[verifier::external_body]
pub(crate) fn build_backoff(exponent: u32, max_retries: u32) -> (policy: RetryPolicy)
    ensures
        policy.backoff_exponent == exponent,
        policy.max_retries == max_retries,
{
    let backoff = ExponentialBackoff::builder().backoff_exponent(exponent).build_with_max_retries(
        max_retries,
    );
    RetryPolicy {
        backoff_exponent: backoff.backoff_exponent,
        max_retries: backoff.max_n_retries,
        backoff,
    }
}

} // verus!
