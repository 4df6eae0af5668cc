//! Who may use the API: the `auth` cookie must carry the configured key.
use vstd::prelude::*;
use crate::status::ApiStatus;
use crate::text::string_of;

verus! {

/// Proof that a request carried a valid key.
#[derive(Debug)]
pub struct UserAuth;

/// The key that a request must present: the configured one, or the empty
/// key when none is configured.
pub open spec fn expected_key(api_key: Option<Seq<char>>) -> Seq<char> {
    match api_key {
        Some(k) => k,
        None => Seq::<char>::empty(),
    }
}

/// Whether `key` is the valid API key.
pub fn is_valid(key: &str, api_key: Option<&str>) -> (r: bool)
    ensures
        r == (key@ == expected_key(match api_key {
            Some(k) => Some(k@),
            None => None,
        })),
{
    let presented = string_of(key);
    let expected = match api_key {
        Some(k) => string_of(k),
        None => String::new(),
    };
    presented == expected
}

impl UserAuth {
    /// Admits a request whose `auth` cookie holds the valid key; a wrong or
    /// missing cookie is unauthorized.
    pub fn from_request(auth_cookie: Option<&str>, api_key: Option<&str>) -> (r: Result<UserAuth, ApiStatus>)
        ensures
            r is Ok <==> (auth_cookie matches Some(c) && c@ == expected_key(match api_key {
                Some(k) => Some(k@),
                None => None,
            })),
            r matches Err(s) ==> s == ApiStatus::Unauthorized,
    {
        match auth_cookie {
            Some(key) => if is_valid(key, api_key) {
                Ok(UserAuth)
            } else {
                Err(ApiStatus::Unauthorized)
            },
            None => Err(ApiStatus::Unauthorized),
        }
    }
}

} // verus!
