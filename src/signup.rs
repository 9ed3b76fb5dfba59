use vstd::prelude::*;

use crate::clock::UtcInstant;
use crate::identifier::Identifier;

verus! {

/// The credentials of a sign-up.
#[derive(Debug, Clone)]
pub struct SignupData {
    username: String,
    password: String,
}

impl SignupData {
    pub closed spec fn spec_username(&self) -> Seq<char> {
        self.username@
    }

    pub closed spec fn spec_password(&self) -> Seq<char> {
        self.password@
    }

    pub fn new(username: String, password: String) -> (r: Self)
        ensures
            r.spec_username() == username@,
            r.spec_password() == password@,
    {
        SignupData { username, password }
    }

    pub fn username(&self) -> (r: &str)
        ensures
            r@ == self.spec_username(),
    {
        self.username.as_str()
    }

    pub fn password(&self) -> (r: &str)
        ensures
            r@ == self.spec_password(),
    {
        self.password.as_str()
    }
}

/// What a successful sign-up returns: the new user, a token, and the first
/// experiment context made for them.
#[derive(Debug, Clone)]
pub struct SignupResponseData {
    username: String,
    unique_id: Identifier,
    user_creation_ts: UtcInstant,
    jwt: String,
    first_experiment_display_context_id: Identifier,
    experiment_display_context_creation_ts: UtcInstant,
}

impl SignupResponseData {
    pub closed spec fn spec_username(&self) -> Seq<char> {
        self.username@
    }

    pub closed spec fn spec_id(&self) -> Identifier {
        self.unique_id
    }

    pub closed spec fn spec_user_creation_ts(&self) -> UtcInstant {
        self.user_creation_ts
    }

    pub closed spec fn spec_jwt(&self) -> Seq<char> {
        self.jwt@
    }

    pub closed spec fn spec_first_experiment_display_context_id(&self) -> Identifier {
        self.first_experiment_display_context_id
    }

    pub closed spec fn spec_experiment_display_context_creation_ts(&self) -> UtcInstant {
        self.experiment_display_context_creation_ts
    }

    pub fn new(
        username: &str,
        uuid: Identifier,
        user_creation_ts: UtcInstant,
        jwt: String,
        first_experiment_display_context_id: Identifier,
        experiment_display_context_creation_ts: UtcInstant,
    ) -> (r: Self)
        ensures
            r.spec_username() == username@,
            r.spec_id() == uuid,
            r.spec_user_creation_ts() == user_creation_ts,
            r.spec_jwt() == jwt@,
            r.spec_first_experiment_display_context_id() == first_experiment_display_context_id,
            r.spec_experiment_display_context_creation_ts() == experiment_display_context_creation_ts,
    {
        SignupResponseData {
            username: username.to_owned(),
            unique_id: uuid,
            user_creation_ts,
            jwt,
            first_experiment_display_context_id,
            experiment_display_context_creation_ts,
        }
    }

    pub fn id(&self) -> (r: Identifier)
        ensures
            r == self.spec_id(),
    {
        self.unique_id
    }

    pub fn username(&self) -> (r: &str)
        ensures
            r@ == self.spec_username(),
    {
        self.username.as_str()
    }

    pub fn jwt(&self) -> (r: &str)
        ensures
            r@ == self.spec_jwt(),
    {
        self.jwt.as_str()
    }

    pub fn first_experiment_display_context_id(&self) -> (r: Identifier)
        ensures
            r == self.spec_first_experiment_display_context_id(),
    {
        self.first_experiment_display_context_id
    }

    pub fn user_creation_ts(&self) -> (r: UtcInstant)
        ensures
            r == self.spec_user_creation_ts(),
    {
        self.user_creation_ts
    }

    pub fn experiment_display_context_creation_ts(&self) -> (r: UtcInstant)
        ensures
            r == self.spec_experiment_display_context_creation_ts(),
    {
        self.experiment_display_context_creation_ts
    }
}

} // verus!
