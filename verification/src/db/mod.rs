//! The account store's requests, and the decision at the end of a login.

use vstd::prelude::*;
use crate::errors::{DbFailure, ServiceError, ServiceErrorView, db_failure_error};

pub mod models;

use self::models::User;

verus! {

/// The body of a registration request.
pub struct UserRegisterReq {
    pub email: String,
    pub password: String,
    pub first_name: String,
    pub last_name: String,
}

/// The body of a login request.
pub struct UserAuthReq {
    pub email: String,
    pub password: String,
}

/// The body of a request for a password reset token.
pub struct ForgottenPasswordReq {
    pub email: String,
}

/// The body of a request that sets a new password with a reset token.
pub struct ResetPasswordReq {
    pub reset_token: String,
    pub new_password: String,
}

/// The end of a login attempt, given the lookup of the account by email and,
/// for a found account, the check of the password against its stored hash:
/// if the lookup failed (no such email among them), the answer is the error
/// that failure is answered with; otherwise the login succeeds, with the
/// found account, exactly when the password matched, and is `Unauthorized`
/// whatever else the check gave.
pub fn login_user(lookup: Result<(User, Result<bool, ServiceError>), DbFailure>) -> (r: Result<
    User,
    ServiceError,
>)
    ensures
        match lookup {
            Err(f) => r matches Err(e) && e@ == db_failure_error(f),
            Ok((user, password_check)) => (r is Ok <==> password_check matches Ok(true)) && (
            r matches Ok(u) ==> u == user) && (r matches Err(e) ==> e@
                == ServiceErrorView::Unauthorized),
        },
{
    match lookup {
        Err(f) => Err(ServiceError::from_db_failure(f)),
        Ok((user, password_check)) => match password_check {
            Ok(matching) => {
                if matching {
                    Ok(user)
                } else {
                    Err(ServiceError::Unauthorized)
                }
            },
            Err(_) => Err(ServiceError::Unauthorized),
        },
    }
}

} // verus!
