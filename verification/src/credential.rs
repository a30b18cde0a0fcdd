//! The OAuth2 credential record and how token-endpoint answers renew it.

use vstd::prelude::*;

verus! {

/// Safety margin, in seconds, subtracted from a vendor-reported expiry so
/// that a token is treated as stale before the vendor rejects it. A policy
/// constant, not part of any vendor contract.
pub const EXPIRY_MARGIN_SECS: i64 = 300;

/// A persisted credential: the bearer token, the optional refresh token,
/// and the margin-adjusted absolute expiry in Unix seconds.
#[derive(Debug)]
pub struct Credential {
    pub access_token: String,
    pub refresh_token: Option<String>,
    pub expires_at: i64,
}

impl Credential {
    /// A credential is usable at `now` while the adjusted expiry lies ahead.
    pub open spec fn valid_at(self, now: int) -> bool {
        now < self.expires_at
    }
}

/// Body of a token-endpoint answer: either a token grant or an error pair.
#[derive(Debug)]
pub struct TokenResponse {
    pub access_token: String,
    pub refresh_token: Option<String>,
    pub expires_in: i64,
    pub error: Option<String>,
    pub error_description: Option<String>,
}

/// The expiry instant recorded for a grant obtained at `now`.
pub open spec fn spec_expires_at(now: int, expires_in: int) -> int {
    now + expires_in - EXPIRY_MARGIN_SECS
}

/// The refresh token kept after a grant: the vendor's new one when present,
/// otherwise whatever the prior credential stored.
pub open spec fn spec_retained_refresh(new_rt: Option<String>, prior: Option<Credential>) -> Option<
    String,
> {
    if new_rt is Some {
        new_rt
    } else if prior is Some {
        prior->Some_0.refresh_token
    } else {
        None
    }
}

/// The credential recorded for a successful grant `resp` obtained at `now`,
/// replacing `prior` wholesale.
pub open spec fn spec_new_credential(
    resp: TokenResponse,
    prior: Option<Credential>,
    now: int,
) -> Credential {
    Credential {
        access_token: resp.access_token,
        refresh_token: spec_retained_refresh(resp.refresh_token, prior),
        expires_at: spec_expires_at(now, resp.expires_in as int) as i64,
    }
}

} // verus!
