//! A dictionary held in memory, and the other things that may stand where a
//! dictionary is looked for.

use vstd::prelude::*;

verus! {

/// A dictionary that is read by pulling its entries one after the other.
///
/// The dictionary is a sequence of entries in the order in which they will be
/// pulled. An entry is either a key with its value or the failure to read
/// that entry. The size hint is what the dictionary says of its own length
/// before it is read; nothing ties it to the number of entries.
#[derive(Debug)]
pub struct MapAccess<K, V, E> {
    /// The entries still to be pulled, the next one last.
    pending: Vec<Result<(K, V), E>>,
    size_hint: Option<usize>,
}

impl<K, V, E> MapAccess<K, V, E> {
    /// The entries still to be pulled, the next one first.
    pub closed spec fn remaining(&self) -> Seq<Result<(K, V), E>> {
        self.pending@.reverse()
    }

    /// The size hint that the dictionary gives.
    pub closed spec fn hint(&self) -> Option<usize> {
        self.size_hint
    }

    /// A dictionary that gives `entries` in their order, and `size_hint` as
    /// its size hint.
    pub fn new(entries: Vec<Result<(K, V), E>>, size_hint: Option<usize>) -> (access: Self)
        ensures
            access.remaining() == entries@,
            access.hint() == size_hint,
    {
        let ghost given = entries@;
        let mut entries = entries;
        let mut pending: Vec<Result<(K, V), E>> = Vec::with_capacity(entries.len());
        while entries.len() > 0
            invariant
                entries@.len() + pending@.len() == given.len(),
                entries@ == given.take(entries@.len() as int),
                pending@ == given.skip(entries@.len() as int).reverse(),
            decreases entries@.len(),
        {
            match entries.pop() {
                Some(entry) => {
                    pending.push(entry);
                },
                None => {},
            }
        }
        MapAccess { pending, size_hint }
    }

    /// The size hint that the dictionary gives.
    pub fn size_hint(&self) -> (size_hint: Option<usize>)
        ensures
            size_hint == self.hint(),
    {
        self.size_hint
    }

    /// Pulls the next entry.
    ///
    /// While entries remain, the first of them is taken off and given: a key
    /// with its value as `Ok(Some(..))`, a failure as `Err(..)`. Once none
    /// remains, every pull gives `Ok(None)`.
    pub fn next_entry(&mut self) -> (pulled: Result<Option<(K, V)>, E>)
        ensures
            pulled == next_of(old(self).remaining()),
            final(self).remaining() == rest_of(old(self).remaining()),
            final(self).hint() == old(self).hint(),
    {
        match self.pending.pop() {
            Some(Ok(entry)) => Ok(Some(entry)),
            Some(Err(failure)) => Err(failure),
            None => Ok(None),
        }
    }
}

/// What pulling from a dictionary with these entries gives.
pub open spec fn next_of<K, V, E>(entries: Seq<Result<(K, V), E>>) -> Result<Option<(K, V)>, E> {
    if entries.len() == 0 {
        Ok(None)
    } else {
        match entries[0] {
            Ok(entry) => Ok(Some(entry)),
            Err(failure) => Err(failure),
        }
    }
}

/// The entries that remain after a pull from a dictionary with these entries.
pub open spec fn rest_of<K, V, E>(entries: Seq<Result<(K, V), E>>) -> Seq<Result<(K, V), E>> {
    if entries.len() == 0 {
        entries
    } else {
        entries.skip(1)
    }
}

/// What may stand at the place where a pair sequence is read from.
#[derive(Debug)]
pub enum Content<K, V, E> {
    /// The marker that stands for "no entries".
    Unit,
    /// A dictionary.
    Dictionary(MapAccess<K, V, E>),
    /// A value of any other shape: a number, a text, a list and so on.
    Other,
}

} // verus!
