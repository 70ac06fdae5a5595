//! Iterator: the elements of a collection are gone through one by one,
//! and how the collection keeps them stays its own business.

use vstd::prelude::*;

verus! {

/// Three animals.
pub struct AnimalCollection {
    pub animal: [&'static str; 3],
}

impl AnimalCollection {
    /// An iterator that stands before the first animal.
    pub fn iter(&self) -> (iterator: AnimalIterator<'_>)
        ensures
            iterator.position() == 0,
            iterator.collection() == self,
    {
        AnimalIterator { index: 0, collections: self }
    }
}

/// Goes through the animals of a collection, first to last.
pub struct AnimalIterator<'a> {
    index: usize,
    collections: &'a AnimalCollection,
}

impl<'a> AnimalIterator<'a> {
    /// The number of animals that were handed out.
    pub closed spec fn position(&self) -> nat {
        self.index as nat
    }

    /// The collection that is gone through.
    pub closed spec fn collection(&self) -> &'a AnimalCollection {
        self.collections
    }

    /// Hands out the next animal and moves on, or hands out nothing and
    /// stays where it is when all three were handed out.
    pub fn next(&mut self) -> (animal: Option<&'static str>)
        ensures
            final(self).collection() == old(self).collection(),
            if old(self).position() < 3 {
                &&& animal == Some(old(self).collection().animal[old(self).position() as int])
                &&& final(self).position() == old(self).position() + 1
            } else {
                &&& animal is None
                &&& final(self).position() == old(self).position()
            },
    {
        if self.index < self.collections.animal.len() {
            let value = self.collections.animal[self.index];
            self.index += 1;
            return Some(value);
        }
        None
    }
}

} // verus!
