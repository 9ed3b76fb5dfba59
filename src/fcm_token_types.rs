use vstd::prelude::*;

use crate::identifier::Identifier;

verus! {

/// A push-notification token registered for one device of a user.
#[derive(Debug)]
pub struct FcmToken {
    user_id: Identifier,
    fcm_token: String,
    device_id: Identifier,
}

impl FcmToken {
    pub closed spec fn spec_user_id(&self) -> Identifier {
        self.user_id
    }

    pub closed spec fn spec_fcm_token(&self) -> Seq<char> {
        self.fcm_token@
    }

    pub closed spec fn spec_device_id(&self) -> Identifier {
        self.device_id
    }

    pub fn new(user_id: Identifier, fcm_token: String, device_id: Identifier) -> (r: Self)
        ensures
            r.spec_user_id() == user_id,
            r.spec_fcm_token() == fcm_token@,
            r.spec_device_id() == device_id,
    {
        FcmToken { user_id, fcm_token, device_id }
    }

    pub fn user_id(&self) -> (r: Identifier)
        ensures
            r == self.spec_user_id(),
    {
        self.user_id
    }

    pub fn device_id(&self) -> (r: Identifier)
        ensures
            r == self.spec_device_id(),
    {
        self.device_id
    }

    pub fn fcm_token(&self) -> (r: &str)
        ensures
            r@ == self.spec_fcm_token(),
    {
        self.fcm_token.as_str()
    }
}

} // verus!
