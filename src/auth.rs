use vstd::prelude::*;

use crate::entity::{parse_level, AccessLevel};
use crate::error::{Error, ErrorCode};

verus! {

/// The identity that a verified token carries.
pub struct Claims {
    pub id: String,
    pub access_level: AccessLevel,
}

impl Claims {
    pub fn new(id: String, access_level: AccessLevel) -> (c: Claims)
        ensures
            c.id@ == id@,
            c.access_level == access_level,
    {
        Claims { id, access_level }
    }
}

/// The claims that a verified token's payload names: `NotAuthorized` where its level is not
/// one of the four.
pub fn claims_from_payload(id: String, level: String) -> (r: Result<Claims, Error>)
    ensures
        r is Ok <==> parse_level(level@) is Some,
        r matches Ok(c) ==> c.id@ == id@ && Some(c.access_level) == parse_level(level@),
        r matches Err(e) ==> e.code == ErrorCode::NotAuthorized,
{
    match AccessLevel::from(level) {
        Some(l) => Ok(Claims::new(id, l)),
        None => Err(Error::custom(ErrorCode::NotAuthorized, String::from_str("unknown access level in token"))),
    }
}

/// What the request guard produced: the claims of a verified token, or why there are none.
pub struct ClaimResult {
    pub outcome: Result<Claims, Error>,
}

/// The level of the caller that a guard result authenticates, if any.
pub open spec fn caller_level(c: ClaimResult) -> Option<AccessLevel> {
    match c.outcome {
        Ok(claims) => Some(claims.access_level),
        Err(_) => None,
    }
}

impl ClaimResult {
    pub fn new(outcome: Result<Claims, Error>) -> (c: ClaimResult)
        ensures
            c.outcome == outcome,
    {
        ClaimResult { outcome }
    }

    /// The guard's result for a request: `verified` is `None` where the request carried no
    /// token, else the outcome of verifying it.
    pub fn from_token(verified: Option<Result<Claims, Error>>) -> (c: ClaimResult)
        ensures
            verified matches Some(v) ==> c.outcome == v,
            verified is None ==> (c.outcome matches Err(e) && e.code == ErrorCode::NotAuthorized),
    {
        match verified {
            Some(v) => ClaimResult { outcome: v },
            None => ClaimResult {
                outcome: Err(Error::custom(ErrorCode::NotAuthorized, String::from_str("no token supplied"))),
            },
        }
    }

    /// The claims, or `NotAuthorized` whatever kept the guard from producing them.
    pub fn inner(self) -> (r: Result<Claims, Error>)
        ensures
            r is Ok <==> self.outcome is Ok,
            r matches Ok(c) ==> self.outcome == Ok::<Claims, Error>(c),
            r matches Err(e) ==> e.code == ErrorCode::NotAuthorized,
    {
        match self.outcome {
            Ok(c) => Ok(c),
            Err(_) => Err(Error::new(ErrorCode::NotAuthorized)),
        }
    }
}

} // verus!
