//! A carrier for pair sequences that stand for a whole dictionary.

use crate::decode::{decoded, deserialize, Error};
use crate::encode::{entries_of, serialize};
use crate::source::Content;
use vstd::prelude::*;

verus! {

/// A value that is to be written or read as a dictionary in its entirety.
///
/// The wrapper adds nothing to the value it carries: its only field is that
/// value, and [`Wrapper::into_inner`] hands it back.
#[derive(Clone, Copy)]
pub struct Wrapper<T>(
    /// The carried value: the pairs to write, or the pairs just read.
    pub T,
);

impl<'a, K, V> Wrapper<&'a [(K, V)]> {
    /// Wraps a borrowed slice of pairs.
    pub fn from_slice(slice: &'a [(K, V)]) -> (wrapper: Self)
        ensures
            wrapper.0 == slice,
    {
        Wrapper(slice)
    }

    /// Lays out the carried pairs as the entries of a dictionary, as
    /// [`serialize`](crate::encode::serialize) does.
    pub fn serialize(&self) -> (entries: Vec<(&'a K, &'a V)>)
        ensures
            entries@ == entries_of::<K, V>(self.0@),
    {
        serialize(self.0)
    }
}

impl<K, V> Wrapper<Vec<(K, V)>> {
    /// Wraps an owned sequence of pairs.
    #[must_use]
    pub fn from_vec(vec: Vec<(K, V)>) -> (wrapper: Self)
        ensures
            wrapper.0 == vec,
    {
        Wrapper(vec)
    }

    /// Lays out the carried pairs as the entries of a dictionary, as
    /// [`serialize`](crate::encode::serialize) does.
    pub fn serialize<'a>(&'a self) -> (entries: Vec<(&'a K, &'a V)>)
        ensures
            entries@ == entries_of::<K, V>(self.0@),
    {
        serialize(self.0.as_slice())
    }

    /// Reads a pair sequence from `content`, as
    /// [`deserialize`](crate::decode::deserialize) does, and wraps it.
    pub fn deserialize<E>(content: Content<K, V, E>) -> (read: Result<Self, Error<E>>)
        ensures
            match decoded(content) {
                Ok(pairs) => read matches Ok(wrapper) && wrapper.0@ == pairs,
                Err(failure) => read == Err::<Self, Error<E>>(failure),
            },
    {
        match deserialize(content) {
            Ok(values) => Ok(Wrapper(values)),
            Err(failure) => Err(failure),
        }
    }
}

impl<K, V, const N: usize> Wrapper<[(K, V); N]> {
    /// Lays out the carried pairs as the entries of a dictionary, as
    /// [`serialize`](crate::encode::serialize) does.
    pub fn serialize<'a>(&'a self) -> (entries: Vec<(&'a K, &'a V)>)
        ensures
            entries@ == entries_of::<K, V>(self.0@),
    {
        serialize(self.0.as_slice())
    }
}

impl<T> Wrapper<T> {
    /// Takes the carried value out, consuming the wrapper.
    pub fn into_inner(self) -> (inner: T)
        ensures
            inner == self.0,
    {
        self.0
    }
}

} // verus!
