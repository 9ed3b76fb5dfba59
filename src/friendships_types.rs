use vstd::prelude::*;

use crate::collections::take_vec;
use crate::identifier::Identifier;

verus! {

/// The contacts added to a user's friend register since a version.
#[derive(Debug, Clone, PartialEq, Eq, Hash)]
pub struct FriendRegisterDelta {
    pulled_version: u64,
    delta_collection: Vec<FriendContact>,
}

impl FriendRegisterDelta {
    pub closed spec fn spec_pulled_version(&self) -> u64 {
        self.pulled_version
    }

    pub closed spec fn spec_collection(&self) -> Seq<FriendContact> {
        self.delta_collection@
    }

    pub fn new(delta_collection: Vec<FriendContact>, pulled_version: u64) -> (r: Self)
        ensures
            r.spec_pulled_version() == pulled_version,
            r.spec_collection() == delta_collection@,
    {
        FriendRegisterDelta { pulled_version, delta_collection }
    }

    pub fn get_pulled_version(&self) -> (r: u64)
        ensures
            r == self.spec_pulled_version(),
    {
        self.pulled_version
    }

    /// Moves the contacts out, leaving none behind.
    pub fn take_collection(&mut self) -> (r: Vec<FriendContact>)
        ensures
            r@ == old(self).spec_collection(),
            final(self).spec_collection() == Seq::<FriendContact>::empty(),
            final(self).spec_pulled_version() == old(self).spec_pulled_version(),
    {
        take_vec(&mut self.delta_collection)
    }
}

/// A contact: a user and their name.
#[derive(Debug, Clone, PartialEq, Eq, Hash)]
pub struct FriendContact {
    username: String,
    user_id: Identifier,
}

impl FriendContact {
    pub closed spec fn spec_username(&self) -> Seq<char> {
        self.username@
    }

    pub closed spec fn spec_user_id(&self) -> Identifier {
        self.user_id
    }

    pub fn new(username: String, user_id: Identifier) -> (r: Self)
        ensures
            r.spec_username() == username@,
            r.spec_user_id() == user_id,
    {
        FriendContact { username, user_id }
    }

    pub fn username(&self) -> (r: &str)
        ensures
            r@ == self.spec_username(),
    {
        self.username.as_str()
    }

    /// Moves the name out, leaving an empty one behind.
    pub fn take_username(&mut self) -> (r: String)
        ensures
            r@ == old(self).spec_username(),
            final(self).spec_username() == Seq::<char>::empty(),
            final(self).spec_user_id() == old(self).spec_user_id(),
    {
        let mut r = String::new();
        std::mem::swap(&mut self.username, &mut r);
        r
    }

    pub fn user_id(&self) -> (r: Identifier)
        ensures
            r == self.spec_user_id(),
    {
        self.user_id
    }
}

} // verus!
