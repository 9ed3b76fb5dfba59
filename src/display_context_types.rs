use vstd::prelude::*;

use crate::clock::UtcInstant;
use crate::collections::copy_items;
use crate::context_ressources::ContextRessourcesMetaDelta;
use crate::identifier::Identifier;

verus! {

/// Whether `ids` holds `id`.
pub fn contains_id(ids: &[Identifier], id: Identifier) -> (r: bool)
    ensures
        r == ids@.contains(id),
{
    let mut i: usize = 0;
    while i < ids.len()
        invariant
            i <= ids@.len(),
            forall|j: int| 0 <= j < i ==> ids@[j] != id,
        decreases ids@.len() - i,
    {
        if ids[i] == id {
            return true;
        }
        i += 1;
    }
    false
}

/// A context as the client sees it, mirroring the database. Its
/// participants are who may access its content.
#[derive(Clone, Debug, PartialEq, Eq, Hash)]
pub struct DisplayContext {
    id: Identifier,
    participants: Vec<Identifier>,
    ressources_delta: Option<ContextRessourcesMetaDelta>,
    version: u64,
    created_at: i64,
    updated_at: i64,
    kind: DisplayContextKind,
}

/// The kinds of display context.
#[derive(Clone, Copy, Debug, PartialEq, Eq, Hash, Structural)]
pub enum DisplayContextKind {
    Conversation,
    Solo,
}

impl DisplayContext {
    pub closed spec fn spec_id(&self) -> Identifier {
        self.id
    }

    pub closed spec fn spec_participants(&self) -> Seq<Identifier> {
        self.participants@
    }

    pub closed spec fn spec_version(&self) -> u64 {
        self.version
    }

    pub closed spec fn spec_created_at(&self) -> i64 {
        self.created_at
    }

    pub closed spec fn spec_updated_at(&self) -> i64 {
        self.updated_at
    }

    pub closed spec fn spec_kind(&self) -> DisplayContextKind {
        self.kind
    }

    pub closed spec fn spec_has_ressources_delta(&self) -> bool {
        self.ressources_delta is Some
    }

    /// A conversation between the participants, with no resources yet;
    /// times are kept to the second.
    pub fn new_multiple_participants(
        id: Identifier,
        participants: Vec<Identifier>,
        version: u64,
        created_at: UtcInstant,
        updated_at: UtcInstant,
    ) -> (r: Self)
        ensures
            r.spec_id() == id,
            r.spec_participants() == participants@,
            r.spec_version() == version,
            r.spec_created_at() == created_at.spec_secs(),
            r.spec_updated_at() == updated_at.spec_secs(),
            r.spec_kind() == DisplayContextKind::Conversation,
            !r.spec_has_ressources_delta(),
    {
        DisplayContext {
            id,
            participants,
            ressources_delta: None,
            version,
            created_at: created_at.timestamp(),
            updated_at: updated_at.timestamp(),
            kind: DisplayContextKind::Conversation,
        }
    }

    pub fn context_id(&self) -> (r: Identifier)
        ensures
            r == self.spec_id(),
    {
        self.id
    }

    pub fn participants(&self) -> (r: Vec<Identifier>)
        ensures
            r@ == self.spec_participants(),
    {
        copy_items(&self.participants)
    }

    /// The participants that are not among `user_ids`, in order.
    pub fn retain_participants_by_ids(&self, user_ids: &[Identifier]) -> (r: Vec<Identifier>)
        ensures
            r@ == self.spec_participants().filter(|p: Identifier| !user_ids@.contains(p)),
    {
        let ghost keep = |p: Identifier| !user_ids@.contains(p);
        let mut r: Vec<Identifier> = Vec::new();
        let mut i: usize = 0;
        while i < self.participants.len()
            invariant
                i <= self.participants@.len(),
                r@ == self.participants@.take(i as int).filter(keep),
                keep == (|p: Identifier| !user_ids@.contains(p)),
            decreases self.participants@.len() - i,
        {
            let id = self.participants[i];
            proof {
                reveal(Seq::filter);
                assert(self.participants@.take(i + 1).drop_last() =~= self.participants@.take(i as int));
            }
            if !contains_id(user_ids, id) {
                r.push(id);
            }
            i += 1;
        }
        assert(self.participants@.take(i as int) =~= self.participants@);
        r
    }

    pub fn version(&self) -> (r: u64)
        ensures
            r == self.spec_version(),
    {
        self.version
    }

    /// The creation time, to the second.
    pub fn created_at(&self) -> (r: UtcInstant)
        ensures
            r.spec_secs() == self.spec_created_at(),
            r.spec_nanos() == 0,
    {
        UtcInstant::from_timestamp(self.created_at)
    }

    /// The time of the last update, to the second.
    pub fn updated_at(&self) -> (r: UtcInstant)
        ensures
            r.spec_secs() == self.spec_updated_at(),
            r.spec_nanos() == 0,
    {
        UtcInstant::from_timestamp(self.updated_at)
    }

    pub fn kind(&self) -> (r: DisplayContextKind)
        ensures
            r == self.spec_kind(),
    {
        self.kind
    }
}

} // verus!
