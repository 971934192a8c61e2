//! Sources of the values that no proof can fix in advance: random token
//! strings and the current time.

use crate::grant::Grant;
use oxide_auth::primitives::generator::RandomGenerator;
use vstd::prelude::*;

verus! {

/// oxide_auth's generator of tokens made of random bytes.
#[verifier::external_type_specification]
#[verifier::external_body]
pub struct ExRandomGenerator(RandomGenerator);

/// Relies on `RandomGenerator::new`: a generator of tokens drawn from
/// `length` random bytes each.
pub assume_specification[ RandomGenerator::new ](length: usize) -> RandomGenerator;

/// Relies on `TagGrant::tag` of `RandomGenerator`: a token drawn from the
/// operating system's random source, whatever the usage counter and grant
/// (oxide_auth's grant carries the redirect URI as a parsed URL and the
/// expiry as a date, so a grant that cannot be written that way gives `Err`).
#[verifier::external_body]
pub(crate) fn tag_token(generator: &mut RandomGenerator, usage: u64, grant: &Grant) -> (r: Result<
    String,
    (),
>) {
    let until = chrono::TimeZone::timestamp_opt(&chrono::Utc, grant.until, 0).single().ok_or(())?;
    let tagged = oxide_auth::primitives::grant::Grant {
        owner_id: grant.owner_id.clone(),
        client_id: grant.client_id.clone(),
        scope: grant.scope.clone(),
        redirect_uri: grant.redirect_uri.parse().map_err(|_| ())?,
        until,
        extensions: oxide_auth::primitives::grant::Extensions::new(),
    };
    oxide_auth::primitives::generator::TagGrant::tag(generator, usage, &tagged)
}

/// Relies on `chrono::Utc::now`: the current time, in whole seconds since
/// the Unix epoch.
#[verifier::external_body]
pub(crate) fn now_seconds() -> (r: i64) {
    chrono::Utc::now().timestamp()
}

} // verus!
