use vstd::prelude::*;

use crate::identifier::Identifier;

verus! {

/// A reference to an animation resource: its identity only.
#[derive(Clone, Copy, Debug, PartialEq, Eq, Hash)]
pub struct AnimationRessource {
    ressource_id: Identifier,
}

impl AnimationRessource {
    /// The identity of the animation.
    pub closed spec fn spec_id(self) -> Identifier {
        self.ressource_id
    }

    pub fn new(ressource_id: Identifier) -> (r: AnimationRessource)
        ensures
            r.spec_id() == ressource_id,
    {
        AnimationRessource { ressource_id }
    }

    pub fn get_id(&self) -> (r: Identifier)
        ensures
            r == self.spec_id(),
    {
        self.ressource_id
    }
}

/// A descriptor of a resource that a client has to fetch, tagged by the
/// resource's kind.
#[derive(Clone, Copy, Debug, PartialEq, Eq, Hash)]
pub enum RessourcesDescriptorsKind {
    Animation(AnimationRessource),
}

impl RessourcesDescriptorsKind {
    /// The identity of the described resource, whatever its kind.
    pub open spec fn spec_id(self) -> Identifier {
        match self {
            RessourcesDescriptorsKind::Animation(a) => a.spec_id(),
        }
    }

    pub fn new_animation_descriptor(animation_id: Identifier) -> (r: RessourcesDescriptorsKind)
        ensures
            r is Animation,
            r.spec_id() == animation_id,
    {
        RessourcesDescriptorsKind::Animation(AnimationRessource::new(animation_id))
    }

    pub fn get_id(&self) -> (r: Identifier)
        ensures
            r == self.spec_id(),
    {
        match self {
            RessourcesDescriptorsKind::Animation(animation_desc) => animation_desc.get_id(),
        }
    }
}

/// The resources a client needs to fetch from the server, in the order in
/// which they were added. Duplicates are kept.
#[derive(Clone, Debug, PartialEq, Eq, Hash)]
pub struct RessourcesDescriptors {
    ressources_collection: Vec<RessourcesDescriptorsKind>,
}

impl View for RessourcesDescriptors {
    type V = Seq<RessourcesDescriptorsKind>;

    closed spec fn view(&self) -> Seq<RessourcesDescriptorsKind> {
        self.ressources_collection@
    }
}

impl RessourcesDescriptors {
    pub fn new_empty() -> (r: RessourcesDescriptors)
        ensures
            r@ == Seq::<RessourcesDescriptorsKind>::empty(),
    {
        RessourcesDescriptors { ressources_collection: Vec::new() }
    }

    /// A catalog holding `descriptors`, in their order.
    pub fn from_descriptors(descriptors: Vec<RessourcesDescriptorsKind>) -> (r: RessourcesDescriptors)
        ensures
            r@ == descriptors@,
    {
        RessourcesDescriptors { ressources_collection: descriptors }
    }

    pub fn add_ressource_descriptor(&mut self, descriptors: RessourcesDescriptorsKind)
        ensures
            final(self)@ == old(self)@.push(descriptors),
    {
        self.ressources_collection.push(descriptors);
    }

    pub fn extend_ressource_descriptor(&mut self, descriptors: &[RessourcesDescriptorsKind])
        ensures
            final(self)@ == old(self)@ + descriptors@,
    {
        let ghost start = self@;
        let mut i: usize = 0;
        while i < descriptors.len()
            invariant
                i <= descriptors@.len(),
                self@ == start + descriptors@.take(i as int),
            decreases descriptors@.len() - i,
        {
            self.ressources_collection.push(descriptors[i]);
            i += 1;
            assert(self@ =~= start + descriptors@.take(i as int));
        }
        assert(descriptors@.take(i as int) =~= descriptors@);
    }

    /// Number of descriptors held.
    pub fn len(&self) -> (r: usize)
        ensures
            r == self@.len(),
    {
        self.ressources_collection.len()
    }

    /// A cursor over the descriptors in insertion order, starting at the
    /// first; each call makes a fresh one.
    pub fn iter(&self) -> (r: RessourcesDescriptorsIterator<'_>)
        ensures
            r.items() == self@,
            r.position() == 0,
    {
        RessourcesDescriptorsIterator { items: &self.ressources_collection, index: 0 }
    }
}

/// A borrowed descriptor, handed out by [`RessourcesDescriptorsIterator`].
pub struct BorrowedRessourcesDescriptorsKind<'a>(&'a RessourcesDescriptorsKind);

impl<'a> BorrowedRessourcesDescriptorsKind<'a> {
    /// The descriptor borrowed.
    pub closed spec fn spec_kind(&self) -> RessourcesDescriptorsKind {
        *self.0
    }

    pub fn kind(&self) -> (r: &'a RessourcesDescriptorsKind)
        ensures
            *r == self.spec_kind(),
    {
        self.0
    }
}

impl<'a> From<BorrowedRessourcesDescriptorsKind<'a>> for RessourcesDescriptorsKind {
    fn from(value: BorrowedRessourcesDescriptorsKind<'a>) -> (r: RessourcesDescriptorsKind) {
        match value.0 {
            RessourcesDescriptorsKind::Animation(anim_resources) => {
                RessourcesDescriptorsKind::Animation(*anim_resources)
            },
        }
    }
}

impl<'a> vstd::std_specs::convert::FromSpecImpl<BorrowedRessourcesDescriptorsKind<'a>> for RessourcesDescriptorsKind {
    open spec fn obeys_from_spec() -> bool {
        true
    }

    open spec fn from_spec(v: BorrowedRessourcesDescriptorsKind<'a>) -> RessourcesDescriptorsKind {
        v.spec_kind()
    }
}

/// A cursor over the descriptors of a [`RessourcesDescriptors`].
pub struct RessourcesDescriptorsIterator<'a> {
    items: &'a Vec<RessourcesDescriptorsKind>,
    index: usize,
}

impl<'a> RessourcesDescriptorsIterator<'a> {
    /// The descriptors walked over.
    pub closed spec fn items(&self) -> Seq<RessourcesDescriptorsKind> {
        self.items@
    }

    /// How many descriptors were handed out so far.
    pub closed spec fn position(&self) -> int {
        self.index as int
    }

    /// The next descriptor in insertion order, or `None` once all were
    /// handed out.
    pub fn next(&mut self) -> (r: Option<BorrowedRessourcesDescriptorsKind<'a>>)
        ensures
            final(self).items() == old(self).items(),
            old(self).position() < old(self).items().len() ==> {
                &&& r is Some
                &&& r.unwrap().spec_kind() == old(self).items()[old(self).position()]
                &&& final(self).position() == old(self).position() + 1
            },
            old(self).position() >= old(self).items().len() ==> {
                &&& r is None
                &&& final(self).position() == old(self).position()
            },
    {
        if self.index < self.items.len() {
            let item = &self.items[self.index];
            self.index += 1;
            Some(BorrowedRessourcesDescriptorsKind(item))
        } else {
            None
        }
    }
}

} // verus!
