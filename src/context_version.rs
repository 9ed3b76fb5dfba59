use vstd::prelude::*;

use crate::collections::copy_items;
use crate::identifier::Identifier;
use crate::ressources_descriptors::RessourcesDescriptors;

verus! {

/// Two version counters from the server at once: the version of one context
/// and the user's session-wide version.
#[derive(Clone, Copy, Debug, PartialEq, Eq, Hash)]
pub struct ServerContextVersion {
    context_id: Identifier,
    context_version: u64,
    user_session_version: u64,
}

impl ServerContextVersion {
    pub closed spec fn spec_context_id(self) -> Identifier {
        self.context_id
    }

    pub closed spec fn spec_context_version(self) -> u64 {
        self.context_version
    }

    pub closed spec fn spec_user_session_version(self) -> u64 {
        self.user_session_version
    }

    pub fn new(context_id: Identifier, context_version: u64, user_session_version: u64) -> (r: Self)
        ensures
            r.spec_context_id() == context_id,
            r.spec_context_version() == context_version,
            r.spec_user_session_version() == user_session_version,
    {
        ServerContextVersion { context_id, context_version, user_session_version }
    }

    pub fn context_id(&self) -> (r: Identifier)
        ensures
            r == self.spec_context_id(),
    {
        self.context_id
    }

    pub fn context_version(&self) -> (r: u64)
        ensures
            r == self.spec_context_version(),
    {
        self.context_version
    }

    pub fn user_session_version(&self) -> (r: u64)
        ensures
            r == self.spec_user_session_version(),
    {
        self.user_session_version
    }
}

/// The answer to a pull: the server's current versions for the user and
/// the descriptors of what changed, one page of them.
#[derive(Clone, Debug, PartialEq, Eq, Hash)]
pub struct PushedUserSessionDeltasWithRessourceDescriptors {
    user_id: Identifier,
    current_user_session_version: u64,
    current_user_context_versions: Vec<(Identifier, u64)>,
    ressources_descriptors: RessourcesDescriptors,
    has_more_ressources: bool,
}

impl PushedUserSessionDeltasWithRessourceDescriptors {
    pub closed spec fn spec_user_id(&self) -> Identifier {
        self.user_id
    }

    pub closed spec fn spec_current_user_session_version(&self) -> u64 {
        self.current_user_session_version
    }

    pub closed spec fn spec_current_user_context_versions(&self) -> Seq<(Identifier, u64)> {
        self.current_user_context_versions@
    }

    pub closed spec fn spec_ressources_descriptors(&self) -> RessourcesDescriptors {
        self.ressources_descriptors
    }

    pub closed spec fn spec_has_more_ressources(&self) -> bool {
        self.has_more_ressources
    }

    pub fn new(
        user_id: Identifier,
        current_user_session_version: u64,
        current_user_context_versions: Vec<(Identifier, u64)>,
        ressources_descriptors: RessourcesDescriptors,
        has_more_ressources: bool,
    ) -> (r: Self)
        ensures
            r.spec_user_id() == user_id,
            r.spec_current_user_session_version() == current_user_session_version,
            r.spec_current_user_context_versions() == current_user_context_versions@,
            r.spec_ressources_descriptors() == ressources_descriptors,
            r.spec_has_more_ressources() == has_more_ressources,
    {
        PushedUserSessionDeltasWithRessourceDescriptors {
            user_id,
            current_user_session_version,
            current_user_context_versions,
            ressources_descriptors,
            has_more_ressources,
        }
    }

    pub fn user_id(&self) -> (r: Identifier)
        ensures
            r == self.spec_user_id(),
    {
        self.user_id
    }

    pub fn current_user_session_version(&self) -> (r: u64)
        ensures
            r == self.spec_current_user_session_version(),
    {
        self.current_user_session_version
    }

    pub fn current_user_context_versions(&self) -> (r: Vec<(Identifier, u64)>)
        ensures
            r@ == self.spec_current_user_context_versions(),
    {
        copy_items(&self.current_user_context_versions)
    }

    pub fn ressources_descriptors(&self) -> (r: &RessourcesDescriptors)
        ensures
            *r == self.spec_ressources_descriptors(),
    {
        &self.ressources_descriptors
    }

    /// Whether descriptors were left out of this page.
    pub fn has_more_ressources(&self) -> (r: bool)
        ensures
            r == self.spec_has_more_ressources(),
    {
        self.has_more_ressources
    }
}

/// What a client reports on a pull: the last session version it pulled, the
/// version it holds of each context, and how many descriptors it accepts in
/// one answer.
#[derive(Clone, Debug, PartialEq, Eq, Hash)]
pub struct LastPulledUserSessionVersionAndContextVersions {
    user_id: Identifier,
    last_pulled_user_session_version: u64,
    contexts: Vec<(Identifier, u64)>,
    max_descriptor_amount: usize,
}

impl LastPulledUserSessionVersionAndContextVersions {
    pub closed spec fn spec_user_id(&self) -> Identifier {
        self.user_id
    }

    pub closed spec fn spec_last_pulled_user_session_version(&self) -> u64 {
        self.last_pulled_user_session_version
    }

    pub closed spec fn spec_contexts(&self) -> Seq<(Identifier, u64)> {
        self.contexts@
    }

    pub closed spec fn spec_max_descriptor_amount(&self) -> usize {
        self.max_descriptor_amount
    }

    pub fn new(
        user_id: Identifier,
        last_pulled_user_session_version: u64,
        contexts: Vec<(Identifier, u64)>,
        max_descriptor_amount: usize,
    ) -> (r: Self)
        ensures
            r.spec_user_id() == user_id,
            r.spec_last_pulled_user_session_version() == last_pulled_user_session_version,
            r.spec_contexts() == contexts@,
            r.spec_max_descriptor_amount() == max_descriptor_amount,
    {
        LastPulledUserSessionVersionAndContextVersions {
            user_id,
            last_pulled_user_session_version,
            contexts,
            max_descriptor_amount,
        }
    }

    pub fn user_id(&self) -> (r: Identifier)
        ensures
            r == self.spec_user_id(),
    {
        self.user_id
    }

    pub fn last_pulled_user_session_version(&self) -> (r: u64)
        ensures
            r == self.spec_last_pulled_user_session_version(),
    {
        self.last_pulled_user_session_version
    }

    pub fn max_descriptor_amount(&self) -> (r: usize)
        ensures
            r == self.spec_max_descriptor_amount(),
    {
        self.max_descriptor_amount
    }

    pub fn context_with_last_version(&self) -> (r: Vec<(Identifier, u64)>)
        ensures
            r@ == self.spec_contexts(),
    {
        copy_items(&self.contexts)
    }

    /// The client's versions, borrowed.
    pub fn contexts(&self) -> (r: &Vec<(Identifier, u64)>)
        ensures
            r@ == self.spec_contexts(),
    {
        &self.contexts
    }
}

} // verus!
