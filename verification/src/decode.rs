//! From the entries of a dictionary to a pair sequence.
//!
//! A dictionary is read one entry at a time. Whoever holds the dictionary
//! pulls the entries; this module decides, after every pull, whether to go on
//! and what the read amounts to in the end. [`begin`] and [`advance`] are those
//! decisions, and [`TupleVecMapVisitor::visit_map`] runs them over a
//! dictionary held in memory.

use crate::source::{Content, MapAccess};
use std::marker::PhantomData;
use vstd::prelude::*;

verus! {

/// The most entries for which room is set aside before any entry is read.
///
/// A size hint comes from whoever holds the dictionary and may be wrong by any
/// amount. The limit keeps a wrong hint from costing more than a small
/// allocation; it never limits how many entries are read.
pub const CAPACITY_LIMIT: usize = 4096;

/// The number of entries for which room is set aside under `size_hint`: the
/// hinted count, but no more than [`CAPACITY_LIMIT`], and none without a hint.
pub open spec fn reserved_for(size_hint: Option<usize>) -> usize {
    match size_hint {
        Some(count) => if count <= CAPACITY_LIMIT { count } else { CAPACITY_LIMIT },
        None => 0,
    }
}

/// Computes the number of entries to set room aside for.
pub fn capacity_for(size_hint: Option<usize>) -> (capacity: usize)
    ensures
        capacity == reserved_for(size_hint),
{
    match size_hint {
        Some(count) => if count <= CAPACITY_LIMIT { count } else { CAPACITY_LIMIT },
        None => 0,
    }
}

/// What a pull from a dictionary gives: the next entry, the end of the
/// dictionary (`Ok(None)`), or the failure to read an entry.
pub type Pulled<K, V, E> = Result<Option<(K, V)>, E>;

/// What is to happen after a pull.
#[derive(Debug)]
pub enum Step<K, V, E> {
    /// The dictionary may hold more: pull again, and hand these pairs back
    /// with what the pull gives.
    Pull(Vec<(K, V)>),
    /// The read is over, with this outcome.
    Done(Result<Vec<(K, V)>, E>),
}

/// The pairs a read starts from: none, with room for the hinted number of
/// entries as far as [`CAPACITY_LIMIT`] allows.
///
/// The room asked for is [`capacity_for`] of the hint. How much room a vector
/// has is no part of what it holds, and the contract speaks of that alone.
pub fn begin<K, V>(size_hint: Option<usize>) -> (values: Vec<(K, V)>)
    ensures
        values@ == Seq::<(K, V)>::empty(),
{
    Vec::with_capacity(capacity_for(size_hint))
}

/// Takes in what a pull gave.
///
/// An entry goes behind the pairs read so far, and the read goes on. The end
/// of the dictionary ends the read with those pairs, unchanged. A failure ends
/// the read with that failure, unchanged, and the pairs read so far are
/// dropped.
pub fn advance<K, V, E>(values: Vec<(K, V)>, pulled: Pulled<K, V, E>) -> (step: Step<K, V, E>)
    ensures
        match pulled {
            Ok(Some(entry)) => step matches Step::Pull(next) && next@ == values@.push(entry),
            Ok(None) => step == Step::<K, V, E>::Done(Ok(values)),
            Err(failure) => step == Step::<K, V, E>::Done(Err(failure)),
        },
{
    match pulled {
        Ok(Some(entry)) => {
            let mut values = values;
            values.push(entry);
            Step::Pull(values)
        },
        Ok(None) => Step::Done(Ok(values)),
        Err(failure) => Step::Done(Err(failure)),
    }
}

/// Whether every one of `entries` is a key with its value.
pub open spec fn all_read<K, V, E>(entries: Seq<Result<(K, V), E>>) -> bool {
    forall|i: int| 0 <= i < entries.len() ==> entries[i] is Ok
}

/// Whether entry `at` is a failure and every entry before it is not.
pub open spec fn fails_first_at<K, V, E>(entries: Seq<Result<(K, V), E>>, at: int) -> bool {
    &&& 0 <= at < entries.len()
    &&& entries[at] is Err
    &&& forall|i: int| 0 <= i < at ==> entries[i] is Ok
}

/// The keys with their values that `entries` hold, in the order of `entries`.
/// It is meant for entries that were [`all_read`].
pub open spec fn pairs_of<K, V, E>(entries: Seq<Result<(K, V), E>>) -> Seq<(K, V)> {
    Seq::new(entries.len(), |i: int| entries[i]->Ok_0)
}

/// What reading a dictionary with these entries amounts to.
///
/// Where no entry fails, it is the pairs of all the entries, in the order in
/// which the dictionary gives them. Otherwise it is the failure of the first
/// entry that fails, whatever came before it and whatever follows.
pub open spec fn collected<K, V, E>(entries: Seq<Result<(K, V), E>>) -> Result<Seq<(K, V)>, E> {
    if all_read(entries) {
        Ok(pairs_of(entries))
    } else {
        Err(entries[choose|at: int| fails_first_at(entries, at)]->Err_0)
    }
}

/// At most one entry fails first, and where one does, its failure is what
/// the read amounts to.
pub proof fn lemma_first_failure<K, V, E>(entries: Seq<Result<(K, V), E>>, at: int)
    requires
        fails_first_at(entries, at),
    ensures
        collected(entries) == Err::<Seq<(K, V)>, E>(entries[at]->Err_0),
{
    let chosen = choose|k: int| fails_first_at(entries, k);
    assert(fails_first_at(entries, chosen));
    assert(chosen == at) by {
        if chosen < at {
            assert(entries[chosen] is Ok);
        } else if at < chosen {
            assert(entries[at] is Ok);
        }
    }
}

/// The failure of a read.
#[derive(Debug, PartialEq, Eq)]
pub enum Error<E> {
    /// What was to be read is neither a dictionary nor the marker for "no
    /// entries".
    InvalidType,
    /// An entry of the dictionary could not be read. The failure is the one
    /// that the dictionary gave for the entry.
    Entry(E),
}

impl<E> Error<E> {
    /// The words for the failure, where it is one that this crate raises
    /// itself; a failure that comes from a dictionary has its own.
    pub fn message(&self) -> (text: Option<&'static str>)
        ensures
            match *self {
                Error::InvalidType => text matches Some(words) && words@
                    == "invalid type: expected a map"@,
                Error::Entry(_) => text is None,
            },
    {
        match self {
            Error::InvalidType => Some("invalid type: expected a map"),
            Error::Entry(_) => None,
        }
    }
}

/// What reading `content` amounts to: the pairs read, or the failure.
///
/// The marker for "no entries" reads as no pairs. A dictionary reads as
/// [`collected`] says. Nothing else can be read.
pub open spec fn decoded<K, V, E>(content: Content<K, V, E>) -> Result<Seq<(K, V)>, Error<E>> {
    match content {
        Content::Unit => Ok(Seq::empty()),
        Content::Dictionary(access) => match collected(access.remaining()) {
            Ok(pairs) => Ok(pairs),
            Err(failure) => Err(Error::Entry(failure)),
        },
        Content::Other => Err(Error::InvalidType),
    }
}

/// The reader of pair sequences: it says what to make of a dictionary and of
/// the marker for "no entries". It holds no state.
pub struct TupleVecMapVisitor<K, V> {
    marker: PhantomData<Vec<(K, V)>>,
}

impl<K, V> TupleVecMapVisitor<K, V> {
    /// A reader.
    pub fn new() -> Self {
        TupleVecMapVisitor { marker: PhantomData }
    }

    /// What the reader can read, in words that complete "expected ...".
    pub fn expecting(&self) -> (words: &'static str)
        ensures
            words@ == "a map"@,
    {
        "a map"
    }

    /// Reads the marker for "no entries": there are no pairs.
    pub fn visit_unit<E>(self) -> (read: Result<Vec<(K, V)>, E>)
        ensures
            read matches Ok(values) && values@ == Seq::<(K, V)>::empty(),
    {
        Ok(Vec::new())
    }

    /// Reads a dictionary: pulls its entries until it is exhausted or an
    /// entry fails, and gives the pairs in the order in which they were
    /// pulled.
    ///
    /// The size hint of the dictionary has no part in the outcome.
    pub fn visit_map<E>(self, access: MapAccess<K, V, E>) -> (read: Result<Vec<(K, V)>, E>)
        ensures
            match collected(access.remaining()) {
                Ok(pairs) => read matches Ok(values) && values@ == pairs,
                Err(failure) => read == Err::<Vec<(K, V)>, E>(failure),
            },
    {
        let ghost entries = access.remaining();
        let mut source = access;
        let mut values: Vec<(K, V)> = begin(source.size_hint());
        loop
            invariant
                entries == access.remaining(),
                values@.len() + source.remaining().len() == entries.len(),
                source.remaining() == entries.skip(values@.len() as int),
                forall|i: int| 0 <= i < values@.len() ==> entries[i] == Ok::<(K, V), E>(values@[i]),
            decreases source.remaining().len(),
        {
            let ghost read_so_far = values@.len() as int;
            let pulled = source.next_entry();
            match advance(values, pulled) {
                Step::Pull(next) => {
                    values = next;
                },
                Step::Done(read) => {
                    proof {
                        if read is Err {
                            lemma_first_failure(entries, read_so_far);
                        }
                    }
                    return read;
                },
            }
        }
    }
}

/// Reads a pair sequence from `content`.
///
/// The outcome is `Ok` exactly for the marker for "no entries" and for a
/// dictionary of which no entry fails.
pub fn deserialize<K, V, E>(content: Content<K, V, E>) -> (read: Result<Vec<(K, V)>, Error<E>>)
    ensures
        match decoded(content) {
            Ok(pairs) => read matches Ok(values) && values@ == pairs,
            Err(failure) => read == Err::<Vec<(K, V)>, Error<E>>(failure),
        },
{
    let visitor = TupleVecMapVisitor::new();
    match content {
        Content::Unit => match visitor.visit_unit::<E>() {
            Ok(values) => Ok(values),
            Err(failure) => Err(Error::Entry(failure)),
        },
        Content::Dictionary(access) => match visitor.visit_map(access) {
            Ok(values) => Ok(values),
            Err(failure) => Err(Error::Entry(failure)),
        },
        Content::Other => Err(Error::InvalidType),
    }
}

} // verus!
