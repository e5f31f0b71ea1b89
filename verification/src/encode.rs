//! From a pair sequence to the entries of a dictionary.

use vstd::prelude::*;

verus! {

/// The entries of the dictionary that stands for `pairs`: entry `i` is the key
/// and the value of pair `i`.
///
/// There is one entry for every pair, and the entries follow the order of the
/// pairs. Pairs with equal keys give entries with equal keys: nothing is
/// merged, dropped or moved.
pub open spec fn entries_of<'a, K, V>(pairs: Seq<(K, V)>) -> Seq<(&'a K, &'a V)> {
    Seq::new(pairs.len(), |i: int| (&pairs[i].0, &pairs[i].1))
}

/// Lays out a slice of pairs as the entries of a dictionary, ready to be
/// handed to whatever writes dictionaries.
///
/// The entries borrow the keys and values of `data`; the call cannot fail.
pub fn serialize<'a, K, V>(data: &'a [(K, V)]) -> (entries: Vec<(&'a K, &'a V)>)
    ensures
        entries@ == entries_of::<K, V>(data@),
{
    let mut entries: Vec<(&'a K, &'a V)> = Vec::with_capacity(data.len());
    let mut at: usize = 0;
    while at < data.len()
        invariant
            at <= data.len(),
            entries@ == entries_of::<K, V>(data@.take(at as int)),
        decreases data.len() - at,
    {
        let pair = &data[at];
        entries.push((&pair.0, &pair.1));
        at = at + 1;
    }
    entries
}

} // verus!
