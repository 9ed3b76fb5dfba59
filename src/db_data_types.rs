use vstd::prelude::*;
use vstd::string::StringExecFns;

use crate::clock::UtcInstant;
use crate::faces_network_errors::FNtwrkCommonTypesErrors;
use crate::identifier::Identifier;
use crate::text::str_equals;

verus! {

/// A context of a user as the database lists it.
#[derive(Debug, Clone, Copy, PartialEq, Eq, Hash)]
pub struct UserDisplayContext {
    context_id: Identifier,
    author_id: Identifier,
    context_kind: UserContextKind,
    created_at: UtcInstant,
}

impl UserDisplayContext {
    pub closed spec fn spec_context_id(&self) -> Identifier {
        self.context_id
    }

    pub closed spec fn spec_author_id(&self) -> Identifier {
        self.author_id
    }

    pub closed spec fn spec_context_kind(&self) -> UserContextKind {
        self.context_kind
    }

    pub closed spec fn spec_created_at(&self) -> UtcInstant {
        self.created_at
    }

    pub fn new(
        context_id: Identifier,
        author_id: Identifier,
        context_kind: UserContextKind,
        created_at: UtcInstant,
    ) -> (r: Self)
        ensures
            r.spec_context_id() == context_id,
            r.spec_author_id() == author_id,
            r.spec_context_kind() == context_kind,
            r.spec_created_at() == created_at,
    {
        UserDisplayContext { context_id, author_id, context_kind, created_at }
    }

    pub fn context_id(&self) -> (r: Identifier)
        ensures
            r == self.spec_context_id(),
    {
        self.context_id
    }

    pub fn author_id(&self) -> (r: Identifier)
        ensures
            r == self.spec_author_id(),
    {
        self.author_id
    }

    pub fn context_kind(&self) -> (r: UserContextKind)
        ensures
            r == self.spec_context_kind(),
    {
        self.context_kind
    }

    pub fn create_at(&self) -> (r: UtcInstant)
        ensures
            r == self.spec_created_at(),
    {
        self.created_at
    }
}

#[derive(Debug, Clone, Copy, Hash, PartialEq, Eq, Structural)]
pub enum UserContextKind {
    Experiment,
    Conversation,
}

/// The database's name of an experiment context.
pub const EXPERIMENT_CONTEXT_KIND: &'static str = "experiment";

/// The database's name of a conversation context.
pub const CONVERSATION_CONTEXT_KIND: &'static str = "conversation";

/// The kind that a database name stands for, if any.
pub open spec fn user_context_kind_of(s: Seq<char>) -> Option<UserContextKind> {
    if s == "experiment"@ {
        Some(UserContextKind::Experiment)
    } else if s == "conversation"@ {
        Some(UserContextKind::Conversation)
    } else {
        None
    }
}

pub trait ToUserContextKind: Sized {
    /// The text being parsed.
    spec fn spec_text(self) -> Seq<char>;

    /// Parses the database's name of a context kind.
    fn to_user_context_kind(self) -> (r: Result<UserContextKind, FNtwrkCommonTypesErrors>)
        ensures
            user_context_kind_of(self.spec_text()) is Some ==> r == Ok::<UserContextKind, FNtwrkCommonTypesErrors>(
                user_context_kind_of(self.spec_text())->Some_0,
            ),
            user_context_kind_of(self.spec_text()) is None ==> r matches Err(
                FNtwrkCommonTypesErrors::ParsingFailure(_),
            ),
    ;
}

impl<'a> ToUserContextKind for &'a str {
    open spec fn spec_text(self) -> Seq<char> {
        self@
    }

    fn to_user_context_kind(self) -> (r: Result<UserContextKind, FNtwrkCommonTypesErrors>) {
        proof {
            reveal_strlit("experiment");
            reveal_strlit("conversation");
        }
        if str_equals(self, EXPERIMENT_CONTEXT_KIND) {
            Ok(UserContextKind::Experiment)
        } else if str_equals(self, CONVERSATION_CONTEXT_KIND) {
            Ok(UserContextKind::Conversation)
        } else {
            let message = String::from_str("Failed to parse user context kind str from db [").concat(
                self,
            ).concat("]");
            Err(FNtwrkCommonTypesErrors::ParsingFailure(message))
        }
    }
}

/// A peer of a user, with the contexts they share.
#[derive(Debug, Clone, PartialEq, Eq, Hash)]
pub struct UserPeersInfos {
    peer_id: Identifier,
    username: String,
    created_at: UtcInstant,
    context_participation: Vec<PeerContextParticipation>,
}

impl UserPeersInfos {
    pub closed spec fn spec_peer_id(&self) -> Identifier {
        self.peer_id
    }

    pub closed spec fn spec_username(&self) -> Seq<char> {
        self.username@
    }

    pub closed spec fn spec_created_at(&self) -> UtcInstant {
        self.created_at
    }

    pub closed spec fn spec_context_participation(&self) -> Seq<PeerContextParticipation> {
        self.context_participation@
    }

    pub fn new(
        peer_id: Identifier,
        username: String,
        created_at: UtcInstant,
        context_participation: Vec<PeerContextParticipation>,
    ) -> (r: Self)
        ensures
            r.spec_peer_id() == peer_id,
            r.spec_username() == username@,
            r.spec_created_at() == created_at,
            r.spec_context_participation() == context_participation@,
    {
        UserPeersInfos { peer_id, username, created_at, context_participation }
    }
}

/// A context a peer takes part in.
#[derive(Debug, Clone, Copy, Hash, PartialEq, Eq)]
pub struct PeerContextParticipation {
    context_id: Identifier,
}

impl PeerContextParticipation {
    pub closed spec fn spec_context_id(&self) -> Identifier {
        self.context_id
    }

    pub fn new(context_id: Identifier) -> (r: Self)
        ensures
            r.spec_context_id() == context_id,
    {
        PeerContextParticipation { context_id }
    }

    pub fn context_id(&self) -> (r: Identifier)
        ensures
            r == self.spec_context_id(),
    {
        self.context_id
    }
}

} // verus!
