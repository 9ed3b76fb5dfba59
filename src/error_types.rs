use vstd::prelude::*;

verus! {

/// Why a login was refused.
#[derive(Debug, Clone)]
pub enum UserLoginResponseErrorKind {
    WrongPwd { user_name: String },
    UserNotFound { user_name: String },
}

} // verus!
