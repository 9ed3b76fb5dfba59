use vstd::prelude::*;

use crate::clock::UtcInstant;
use crate::collections::take_vec;
use crate::db_data_types::{UserDisplayContext, UserPeersInfos};
use crate::identifier::Identifier;

verus! {

/// The credentials of a sign-in.
#[derive(Debug, Clone)]
pub struct SigninData {
    username: String,
    password: String,
}

impl SigninData {
    pub closed spec fn spec_username(&self) -> Seq<char> {
        self.username@
    }

    pub closed spec fn spec_password(&self) -> Seq<char> {
        self.password@
    }

    pub fn new(username: String, password: String) -> (r: Self)
        ensures
            r.spec_username() == username@,
            r.spec_password() == password@,
    {
        SigninData { username, password }
    }

    pub fn username(&self) -> (r: &str)
        ensures
            r@ == self.spec_username(),
    {
        self.username.as_str()
    }

    pub fn password(&self) -> (r: &str)
        ensures
            r@ == self.spec_password(),
    {
        self.password.as_str()
    }
}

/// What a successful sign-in returns: the user, a token, their contexts
/// and their peers.
#[derive(Debug, Clone)]
pub struct SigninResponseData {
    username: String,
    unique_id: Identifier,
    user_creation_ts: UtcInstant,
    jwt: String,
    user_display_contexts: Vec<UserDisplayContext>,
    user_peer_infos: Vec<UserPeersInfos>,
}

impl SigninResponseData {
    pub closed spec fn spec_username(&self) -> Seq<char> {
        self.username@
    }

    pub closed spec fn spec_id(&self) -> Identifier {
        self.unique_id
    }

    pub closed spec fn spec_user_creation_ts(&self) -> UtcInstant {
        self.user_creation_ts
    }

    pub closed spec fn spec_jwt(&self) -> Seq<char> {
        self.jwt@
    }

    pub closed spec fn spec_user_display_contexts(&self) -> Seq<UserDisplayContext> {
        self.user_display_contexts@
    }

    pub closed spec fn spec_user_peer_infos(&self) -> Seq<UserPeersInfos> {
        self.user_peer_infos@
    }

    pub fn new(
        username: &str,
        uuid: Identifier,
        user_creation_ts: UtcInstant,
        jwt: String,
        user_display_contexts: Vec<UserDisplayContext>,
        user_peer_infos: Vec<UserPeersInfos>,
    ) -> (r: Self)
        ensures
            r.spec_username() == username@,
            r.spec_id() == uuid,
            r.spec_user_creation_ts() == user_creation_ts,
            r.spec_jwt() == jwt@,
            r.spec_user_display_contexts() == user_display_contexts@,
            r.spec_user_peer_infos() == user_peer_infos@,
    {
        SigninResponseData {
            username: username.to_owned(),
            unique_id: uuid,
            user_creation_ts,
            jwt,
            user_display_contexts,
            user_peer_infos,
        }
    }

    pub fn id(&self) -> (r: Identifier)
        ensures
            r == self.spec_id(),
    {
        self.unique_id
    }

    pub fn username(&self) -> (r: &str)
        ensures
            r@ == self.spec_username(),
    {
        self.username.as_str()
    }

    pub fn jwt(&self) -> (r: &str)
        ensures
            r@ == self.spec_jwt(),
    {
        self.jwt.as_str()
    }

    /// Moves the contexts out, leaving none behind.
    pub fn take_user_display_contexts(&mut self) -> (r: Vec<UserDisplayContext>)
        ensures
            r@ == old(self).spec_user_display_contexts(),
            final(self).spec_user_display_contexts() == Seq::<UserDisplayContext>::empty(),
            final(self).spec_user_peer_infos() == old(self).spec_user_peer_infos(),
            final(self).spec_id() == old(self).spec_id(),
    {
        take_vec(&mut self.user_display_contexts)
    }

    /// Moves the peers out, leaving none behind.
    pub fn user_peer_infos(&mut self) -> (r: Vec<UserPeersInfos>)
        ensures
            r@ == old(self).spec_user_peer_infos(),
            final(self).spec_user_peer_infos() == Seq::<UserPeersInfos>::empty(),
            final(self).spec_user_display_contexts() == old(self).spec_user_display_contexts(),
            final(self).spec_id() == old(self).spec_id(),
    {
        take_vec(&mut self.user_peer_infos)
    }

    pub fn user_creation_ts(&self) -> (r: UtcInstant)
        ensures
            r == self.spec_user_creation_ts(),
    {
        self.user_creation_ts
    }
}

} // verus!
