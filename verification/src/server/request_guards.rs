//! The first server's request guard: the `Bearer` header must carry the
//! API key.
use vstd::prelude::*;
use crate::status::ApiStatus;
use crate::auth::{expected_key, is_valid};
use crate::text::string_of;

verus! {

/// The key that a request presented.
#[derive(Debug)]
pub struct UserAuth(pub String);

/// Why a request was refused.
#[derive(Debug, Clone, Copy, PartialEq, Eq, Structural)]
pub enum UserAuthError {
    Missing,
    Invalid,
}

impl UserAuth {
    /// Admits a request whose `Bearer` header holds the valid API key (the
    /// configured one, or the empty key when none is configured). A request
    /// without the header is a bad request; one with another key is
    /// unauthorized.
    pub fn from_request(bearer: Option<&str>, api_key: Option<&str>) -> (r: Result<
        UserAuth,
        (ApiStatus, UserAuthError),
    >)
        ensures
            bearer is None ==> r == Err::<UserAuth, (ApiStatus, UserAuthError)>(
                (ApiStatus::BadRequest, UserAuthError::Missing),
            ),
            bearer matches Some(k) ==> (if k@ == expected_key(match api_key {
                Some(a) => Some(a@),
                None => None,
            }) {
                r matches Ok(a) && a.0@ == k@
            } else {
                r == Err::<UserAuth, (ApiStatus, UserAuthError)>(
                    (ApiStatus::Unauthorized, UserAuthError::Invalid),
                )
            }),
    {
        match bearer {
            None => Err((ApiStatus::BadRequest, UserAuthError::Missing)),
            Some(key) => if is_valid(key, api_key) {
                Ok(UserAuth(string_of(key)))
            } else {
                Err((ApiStatus::Unauthorized, UserAuthError::Invalid))
            },
        }
    }
}

} // verus!
