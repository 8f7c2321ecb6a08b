//! Auth gate: validates an inbound bearer credential against the
//! server-configured secret. No configured secret means authentication is
//! disabled and every request is authorized.

use vstd::prelude::*;

verus! {

/// View of an optional string as an optional character sequence.
pub open spec fn opt_view(o: Option<String>) -> Option<Seq<char>> {
    match o {
        Option::Some(s) => Option::Some(s@),
        Option::None => Option::None,
    }
}

/// Whether a request carrying `credential` is authorized against
/// `configured_secret`. A missing secret authorizes everything; a configured
/// secret requires a credential that matches it exactly.
pub open spec fn spec_authorized(
    configured_secret: Option<Seq<char>>,
    credential: Option<Seq<char>>,
) -> bool {
    match configured_secret {
        Option::None => true,
        Option::Some(secret) => match credential {
            Option::Some(c) => c == secret,
            Option::None => false,
        },
    }
}

/// Auth gate over a credential that is present on the request.
pub fn authorize(configured_secret: &Option<String>, presented_credential: &String) -> (ok: bool)
    ensures
        ok == spec_authorized(
            opt_view(*configured_secret),
            Option::Some(presented_credential@),
        ),
{
    match configured_secret {
        Option::Some(secret) => *secret == *presented_credential,
        Option::None => true,
    }
}

/// Auth gate over a credential that may be missing from the request
/// altogether; with a configured secret, a missing credential is rejected.
pub fn validator(configured_secret: &Option<String>, credential: &Option<String>) -> (ok: bool)
    ensures
        ok == spec_authorized(opt_view(*configured_secret), opt_view(*credential)),
{
    match credential {
        Option::Some(c) => authorize(configured_secret, c),
        Option::None => configured_secret.is_none(),
    }
}

} // verus!
