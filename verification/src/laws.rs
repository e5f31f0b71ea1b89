//! What holds of writing and reading taken together.
//!
//! Each proof function states one law over the functions that the contracts
//! of this crate are written in: [`entries_of`] for writing, [`collected`] and
//! [`decoded`] for reading.

use crate::decode::{
    all_read, collected, decoded, fails_first_at, lemma_first_failure, pairs_of, reserved_for,
    Error, CAPACITY_LIMIT,
};
use crate::encode::entries_of;
use crate::source::{next_of, rest_of, Content, MapAccess};
use vstd::prelude::*;

verus! {

/// The entries of a dictionary that holds exactly what was written to it: the
/// written entries in the order of writing, each one read without failure.
///
/// A format that keeps the order of a dictionary's entries, and keeps entries
/// with equal keys apart, gives such a dictionary when it reads what it wrote.
pub open spec fn read_back<K, V, E>(written: Seq<(&K, &V)>) -> Seq<Result<(K, V), E>> {
    Seq::new(written.len(), |i: int| Ok((*written[i].0, *written[i].1)))
}

/// What reading amounts to when it is done pull by pull: starting from
/// `values`, each pulled entry goes behind the pairs read so far, until the
/// dictionary ends or an entry fails.
pub open spec fn pulled_through<K, V, E>(
    values: Seq<(K, V)>,
    entries: Seq<Result<(K, V), E>>,
) -> Result<Seq<(K, V)>, E>
    decreases entries.len(),
{
    match next_of(entries) {
        Ok(Some(entry)) => pulled_through(values.push(entry), rest_of(entries)),
        Ok(None) => Ok(values),
        Err(failure) => Err(failure),
    }
}

/// Writing gives one entry for every pair, in the order of the pairs, and
/// entry `i` holds the key and the value of pair `i`. Equal keys change
/// nothing: no entry is merged with another, dropped or moved.
pub proof fn law_one_entry_per_pair<K, V>(pairs: Seq<(K, V)>)
    ensures
        entries_of(pairs).len() == pairs.len(),
        forall|i: int|
            0 <= i < pairs.len() ==> *(#[trigger] entries_of(pairs)[i]).0 == pairs[i].0
                && *entries_of(pairs)[i].1 == pairs[i].1,
{
}

/// Reading back what was written gives the pairs that were written, in their
/// order.
pub proof fn law_round_trip<K, V, E>(pairs: Seq<(K, V)>)
    ensures
        collected(read_back::<K, V, E>(entries_of(pairs))) == Ok::<Seq<(K, V)>, E>(pairs),
{
    assert(pairs_of(read_back::<K, V, E>(entries_of(pairs))) == pairs);
}

/// A dictionary of which no entry fails reads as its pairs in the order in
/// which it gives them: pair `i` of the outcome is entry `i` of the
/// dictionary, whatever the keys are.
pub proof fn law_order_preserved<K, V, E>(entries: Seq<Result<(K, V), E>>)
    requires
        all_read(entries),
    ensures
        collected(entries) matches Ok(pairs) && pairs.len() == entries.len() && forall|i: int|
            0 <= i < entries.len() ==> entries[i] == Ok::<(K, V), E>(#[trigger] pairs[i]),
{
}

/// Writing no pairs gives no entries, and both the marker for "no entries" and
/// a dictionary without entries read as no pairs.
pub proof fn law_empty<K, V, E>(access: MapAccess<K, V, E>)
    ensures
        entries_of(Seq::<(K, V)>::empty()) == Seq::<(&K, &V)>::empty(),
        decoded(Content::<K, V, E>::Unit) == Ok::<Seq<(K, V)>, Error<E>>(Seq::empty()),
        access.remaining().len() == 0 ==> decoded(Content::Dictionary(access)) == Ok::<
            Seq<(K, V)>,
            Error<E>,
        >(Seq::empty()),
{
    if access.remaining().len() == 0 {
        assert(pairs_of(access.remaining()) == Seq::<(K, V)>::empty());
    }
}

/// What is neither a dictionary nor the marker for "no entries" does not read
/// as any pair sequence, not even an empty one: the read fails, and says that
/// the shape is wrong.
pub proof fn law_wrong_shape_fails<K, V, E>()
    ensures
        decoded(Content::<K, V, E>::Other) == Err::<Seq<(K, V)>, Error<E>>(Error::InvalidType),
{
}

/// A read gives all the pairs or none: where an entry fails, the outcome is
/// the failure of the first entry that does, unchanged, and holds no pairs.
pub proof fn law_all_or_nothing<K, V, E>(entries: Seq<Result<(K, V), E>>)
    ensures
        collected(entries) is Ok <==> all_read(entries),
        collected(entries) matches Ok(pairs) ==> pairs.len() == entries.len(),
        forall|at: int| #[trigger]
            fails_first_at(entries, at) ==> collected(entries) == Err::<Seq<(K, V)>, E>(
                entries[at]->Err_0,
            ),
{
    assert forall|at: int| #[trigger] fails_first_at(entries, at) implies collected(entries)
        == Err::<Seq<(K, V)>, E>(entries[at]->Err_0) by {
        lemma_first_failure(entries, at);
    }
}

/// The size hint decides how much room is set aside, within the limit, and
/// nothing else: dictionaries with the same entries read alike, whatever
/// their hints.
pub proof fn law_hint_only_reserves<K, V, E>(
    one: MapAccess<K, V, E>,
    other: MapAccess<K, V, E>,
    size_hint: Option<usize>,
)
    requires
        one.remaining() == other.remaining(),
    ensures
        decoded(Content::Dictionary(one)) == decoded(Content::Dictionary(other)),
        reserved_for(size_hint) <= CAPACITY_LIMIT,
        size_hint matches Some(count) ==> reserved_for(size_hint) <= count && (count
            <= CAPACITY_LIMIT ==> reserved_for(size_hint) == count),
        size_hint is None ==> reserved_for(size_hint) == 0,
{
}

/// Reading pull by pull comes to what [`collected`] says of the dictionary as
/// a whole: the pairs read before go first, then those of the dictionary; a
/// failure is the outcome whatever was read before.
pub proof fn law_pull_by_pull<K, V, E>(values: Seq<(K, V)>, entries: Seq<Result<(K, V), E>>)
    ensures
        pulled_through(values, entries) == match collected(entries) {
            Ok(pairs) => Ok::<Seq<(K, V)>, E>(values + pairs),
            Err(failure) => Err(failure),
        },
    decreases entries.len(),
{
    if entries.len() == 0 {
        assert(values + pairs_of(entries) == values);
    } else {
        let rest = rest_of(entries);
        match entries[0] {
            Ok(entry) => {
                law_pull_by_pull(values.push(entry), rest);
                if all_read(rest) {
                    assert forall|i: int| 0 <= i < entries.len() implies entries[i] is Ok by {
                        if i > 0 {
                            assert(entries[i] == rest[i - 1]);
                        }
                    }
                    assert(values.push(entry) + pairs_of(rest) == values + pairs_of(entries));
                } else {
                    lemma_some_entry_fails_first(rest);
                    let at = choose|at: int| fails_first_at(rest, at);
                    assert forall|i: int| 0 <= i < at + 1 implies entries[i] is Ok by {
                        if i > 0 {
                            assert(entries[i] == rest[i - 1]);
                        }
                    }
                    lemma_first_failure(rest, at);
                    lemma_first_failure(entries, at + 1);
                }
            },
            Err(failure) => {
                lemma_first_failure(entries, 0);
            },
        }
    }
}

/// Among entries that were not all read, one fails first.
proof fn lemma_some_entry_fails_first<K, V, E>(entries: Seq<Result<(K, V), E>>)
    requires
        !all_read(entries),
    ensures
        exists|at: int| fails_first_at(entries, at),
    decreases entries.len(),
{
    let last = entries.len() - 1;
    let front = entries.take(last);
    if all_read(front) {
        assert(entries[last] is Err) by {
            if entries[last] is Ok {
                assert forall|i: int| 0 <= i < entries.len() implies entries[i] is Ok by {
                    if i < last {
                        assert(entries[i] == front[i]);
                    }
                }
            }
        }
        assert forall|i: int| 0 <= i < last implies entries[i] is Ok by {
            assert(entries[i] == front[i]);
        }
        assert(fails_first_at(entries, last));
    } else {
        lemma_some_entry_fails_first(front);
        let at = choose|at: int| fails_first_at(front, at);
        assert(entries[at] == front[at]);
        assert forall|i: int| 0 <= i < at implies entries[i] is Ok by {
            assert(entries[i] == front[i]);
        }
        assert(fails_first_at(entries, at));
    }
}

} // verus!
