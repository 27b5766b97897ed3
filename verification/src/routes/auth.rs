//! Authentication stub endpoints.

use vstd::prelude::*;

verus! {

broadcast use vstd::string::group_string_axioms;

/// Response for the authentication stub endpoints.
#[derive(Debug)]
pub struct AuthStubResponse {
    pub status: String,
    pub message: String,
}

/// `POST /api/auth/login`: not implemented, answered with 501.
pub fn login_stub() -> (r: (u16, AuthStubResponse))
    ensures
        r.0 == 501,
        r.1.status@ == "not_implemented"@,
        r.1.message@ == "Authentication is not implemented yet."@,
{
    (
        501,
        AuthStubResponse {
            status: "not_implemented".to_string(),
            message: "Authentication is not implemented yet.".to_string(),
        },
    )
}

/// `POST /api/auth/logout`: not implemented, answered with 501.
pub fn logout_stub() -> (r: (u16, AuthStubResponse))
    ensures
        r.0 == 501,
        r.1.status@ == "not_implemented"@,
        r.1.message@ == "Logout is not implemented yet."@,
{
    (
        501,
        AuthStubResponse { status: "not_implemented".to_string(), message: "Logout is not implemented yet.".to_string() },
    )
}

} // verus!
