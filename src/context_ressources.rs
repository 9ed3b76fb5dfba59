use vstd::prelude::*;

use crate::identifier::Identifier;

verus! {

/// A resource attached to a context, without its data.
#[derive(Clone, Copy, Debug, PartialEq, Eq, Hash)]
pub enum RessourceItem {
    Animation { id: Identifier },
}

impl RessourceItem {
    pub open spec fn spec_ressource_id(self) -> Identifier {
        match self {
            RessourceItem::Animation { id } => id,
        }
    }

    pub fn new_animation_ressource(animation_id: Identifier) -> (r: RessourceItem)
        ensures
            r == (RessourceItem::Animation { id: animation_id }),
    {
        RessourceItem::Animation { id: animation_id }
    }

    pub fn get_ressource_id(&self) -> (r: Identifier)
        ensures
            r == self.spec_ressource_id(),
    {
        match self {
            RessourceItem::Animation { id } => *id,
        }
    }
}

/// The resources attached to the current version of a context, in the
/// order in which they were added.
#[derive(Clone, Debug, PartialEq, Eq, Hash)]
pub struct ContextRessourcesMetaDelta {
    ressources: Vec<RessourceItem>,
}

impl View for ContextRessourcesMetaDelta {
    type V = Seq<RessourceItem>;

    closed spec fn view(&self) -> Seq<RessourceItem> {
        self.ressources@
    }
}

impl ContextRessourcesMetaDelta {
    pub fn extend_ressources(&mut self, ressources: &[RessourceItem])
        ensures
            final(self)@ == old(self)@ + ressources@,
    {
        let ghost start = self@;
        let mut i: usize = 0;
        while i < ressources.len()
            invariant
                i <= ressources@.len(),
                self@ == start + ressources@.take(i as int),
            decreases ressources@.len() - i,
        {
            self.ressources.push(ressources[i]);
            i += 1;
            assert(self@ =~= start + ressources@.take(i as int));
        }
        assert(ressources@.take(i as int) =~= ressources@);
    }

    /// A cursor over the resources in insertion order, starting at the
    /// first; each call makes a fresh one.
    pub fn iter(&self) -> (r: ContextRessourceIterator<'_>)
        ensures
            r.items() == self@,
            r.position() == 0,
    {
        ContextRessourceIterator { ressources: self.ressources.as_slice(), index: 0 }
    }
}

impl Default for ContextRessourcesMetaDelta {
    fn default() -> (r: ContextRessourcesMetaDelta)
        ensures
            r@ == Seq::<RessourceItem>::empty(),
    {
        ContextRessourcesMetaDelta { ressources: Vec::new() }
    }
}

/// A cursor over the resources of a [`ContextRessourcesMetaDelta`].
pub struct ContextRessourceIterator<'a> {
    ressources: &'a [RessourceItem],
    index: usize,
}

impl<'a> ContextRessourceIterator<'a> {
    /// The resources walked over.
    pub closed spec fn items(&self) -> Seq<RessourceItem> {
        self.ressources@
    }

    /// How many resources were handed out so far.
    pub closed spec fn position(&self) -> int {
        self.index as int
    }

    /// The next resource in insertion order, or `None` once all were
    /// handed out.
    pub fn next(&mut self) -> (r: Option<&'a RessourceItem>)
        ensures
            final(self).items() == old(self).items(),
            old(self).position() < old(self).items().len() ==> {
                &&& r is Some
                &&& *r.unwrap() == old(self).items()[old(self).position()]
                &&& final(self).position() == old(self).position() + 1
            },
            old(self).position() >= old(self).items().len() ==> {
                &&& r is None
                &&& final(self).position() == old(self).position()
            },
    {
        if self.index < self.ressources.len() {
            let item = &self.ressources[self.index];
            self.index += 1;
            Some(item)
        } else {
            None
        }
    }
}

} // verus!
