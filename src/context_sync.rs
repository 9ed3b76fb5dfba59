use vstd::prelude::*;
use vstd::slice::slice_to_vec;

use crate::collections::copy_items;
use crate::identifier::Identifier;

verus! {

/// The version of one context that a client last saw.
#[derive(Debug, Clone, Copy)]
pub struct LastClientContextVersion {
    context_id: Identifier,
    context_version: u64,
}

impl LastClientContextVersion {
    pub closed spec fn spec_context_id(&self) -> Identifier {
        self.context_id
    }

    pub closed spec fn spec_context_version(&self) -> u64 {
        self.context_version
    }

    pub fn new(context_id: Identifier, context_version: u64) -> (r: Self)
        ensures
            r.spec_context_id() == context_id,
            r.spec_context_version() == context_version,
    {
        LastClientContextVersion { context_id, context_version }
    }

    pub fn context_id(&self) -> (r: Identifier)
        ensures
            r == self.spec_context_id(),
    {
        self.context_id
    }

    pub fn context_version(&self) -> (r: u64)
        ensures
            r == self.spec_context_version(),
    {
        self.context_version
    }
}

/// The answer to a pull of one context: up to date, or the ids of the
/// animations that changed.
#[derive(Debug, Clone)]
pub struct PulledContextVersionWithAnimationDelta {
    context_id: Identifier,
    animation_delta: AnimationDeltaCollection,
}

/// Either nothing changed, or these animations did.
#[derive(Debug, Clone)]
pub enum AnimationDeltaCollection {
    UptoDate,
    AnimationDelta { ids_collection: Vec<Identifier> },
}

impl AnimationDeltaCollection {
    /// The changed ids, `None` when up to date.
    pub open spec fn spec_ids(&self) -> Option<Seq<Identifier>> {
        match self {
            AnimationDeltaCollection::UptoDate => None,
            AnimationDeltaCollection::AnimationDelta { ids_collection } => Some(ids_collection@),
        }
    }
}

impl PulledContextVersionWithAnimationDelta {
    pub closed spec fn spec_context_id(&self) -> Identifier {
        self.context_id
    }

    pub closed spec fn spec_animation_delta(&self) -> Option<Seq<Identifier>> {
        self.animation_delta.spec_ids()
    }

    /// `None` stands for a context that is up to date.
    pub fn new(context_id: Identifier, animations_delta: Option<&[Identifier]>) -> (r: Self)
        ensures
            r.spec_context_id() == context_id,
            r.spec_animation_delta() == match animations_delta {
                Some(coll) => Some(coll@),
                None => None::<Seq<Identifier>>,
            },
    {
        let animation_delta = match animations_delta {
            Some(coll) => AnimationDeltaCollection::AnimationDelta { ids_collection: slice_to_vec(coll) },
            None => AnimationDeltaCollection::UptoDate,
        };
        PulledContextVersionWithAnimationDelta { context_id, animation_delta }
    }

    pub fn context_id(&self) -> (r: Identifier)
        ensures
            r == self.spec_context_id(),
    {
        self.context_id
    }

    pub fn get_animation_delta_ids_coll(&self) -> (r: Option<Vec<Identifier>>)
        ensures
            match r {
                Some(v) => self.spec_animation_delta() == Some(v@),
                None => self.spec_animation_delta() is None,
            },
    {
        match &self.animation_delta {
            AnimationDeltaCollection::AnimationDelta { ids_collection } => Some(copy_items(ids_collection)),
            AnimationDeltaCollection::UptoDate => None,
        }
    }
}

} // verus!
