//! Serializations of concurrent producers' streams.
//!
//! Both a FIFO channel with several senders and a mutex with several
//! appenders serialize concurrent producers into one total order. That
//! order is some interleaving of the producers' own streams: it keeps
//! each stream's internal order and neither drops nor duplicates an
//! element. The lemmas here state the latter once, for both users:
//! first for two streams, then for a whole family.

use vstd::multiset::Multiset;
use vstd::prelude::*;

verus! {

/// `s` is an interleaving of `a` and `b`: every element of `s` comes
/// from exactly one of the two, and each of `a` and `b` appears in `s`
/// in its own order.
pub open spec fn is_interleaving<T>(a: Seq<T>, b: Seq<T>, s: Seq<T>) -> bool
    decreases s.len(),
{
    if s.len() == 0 {
        a.len() == 0 && b.len() == 0
    } else {
        ||| (a.len() > 0 && a.last() == s.last() && is_interleaving(a.drop_last(), b, s.drop_last()))
        ||| (b.len() > 0 && b.last() == s.last() && is_interleaving(a, b.drop_last(), s.drop_last()))
    }
}

/// Serialization loses nothing and invents nothing: an interleaving of
/// two streams is exactly as long as the two together, and holds the
/// same elements with the same multiplicities.
pub proof fn lemma_interleaving_preserves_contents<T>(a: Seq<T>, b: Seq<T>, s: Seq<T>)
    requires
        is_interleaving(a, b, s),
    ensures
        s.len() == a.len() + b.len(),
        s.to_multiset() =~= a.to_multiset().add(b.to_multiset()),
    decreases s.len(),
{
    broadcast use vstd::seq_lib::group_to_multiset_ensures;
    broadcast use vstd::multiset::group_multiset_axioms;

    if s.len() == 0 {
        assert(s.to_multiset().len() == 0);
        assert(a.to_multiset().len() == 0);
        assert(b.to_multiset().len() == 0);
    } else if a.len() > 0 && a.last() == s.last() && is_interleaving(
        a.drop_last(),
        b,
        s.drop_last(),
    ) {
        lemma_interleaving_preserves_contents(a.drop_last(), b, s.drop_last());
        assert(a.drop_last().push(a.last()) =~= a);
        assert(s.drop_last().push(s.last()) =~= s);
        assert(s.to_multiset() =~= s.drop_last().to_multiset().insert(s.last()));
        assert(a.to_multiset() =~= a.drop_last().to_multiset().insert(a.last()));
    } else {
        lemma_interleaving_preserves_contents(a, b.drop_last(), s.drop_last());
        assert(b.drop_last().push(b.last()) =~= b);
        assert(s.drop_last().push(s.last()) =~= s);
        assert(s.to_multiset() =~= s.drop_last().to_multiset().insert(s.last()));
        assert(b.to_multiset() =~= b.drop_last().to_multiset().insert(b.last()));
    }
}

/// How many elements a family of producer streams issues in all.
pub open spec fn total_len<T>(producers: Seq<Seq<T>>) -> nat
    decreases producers.len(),
{
    if producers.len() == 0 {
        0
    } else {
        total_len(producers.drop_last()) + producers.last().len()
    }
}

/// Everything a family of producer streams issues, with multiplicities.
pub open spec fn total_contents<T>(producers: Seq<Seq<T>>) -> Multiset<T>
    decreases producers.len(),
{
    if producers.len() == 0 {
        Multiset::empty()
    } else {
        total_contents(producers.drop_last()).add(producers.last().to_multiset())
    }
}

/// `s` is a serialization of a whole family of producer streams: the
/// producers were admitted one element at a time, in some order that
/// keeps each producer's own order.
pub open spec fn is_serialization<T>(producers: Seq<Seq<T>>, s: Seq<T>) -> bool
    decreases producers.len(),
{
    if producers.len() == 0 {
        s.len() == 0
    } else {
        exists|earlier: Seq<T>|
            is_serialization(producers.drop_last(), earlier) && #[trigger] is_interleaving(
                earlier,
                producers.last(),
                s,
            )
    }
}

/// Serializing any number of producers loses nothing and invents
/// nothing: however their elements were admitted, all of them are
/// there, each exactly as often as it was issued.
pub proof fn lemma_serialization_preserves_contents<T>(producers: Seq<Seq<T>>, s: Seq<T>)
    requires
        is_serialization(producers, s),
    ensures
        s.len() == total_len(producers),
        s.to_multiset() =~= total_contents(producers),
    decreases producers.len(),
{
    broadcast use vstd::seq_lib::group_to_multiset_ensures;
    broadcast use vstd::multiset::group_multiset_axioms;

    if producers.len() == 0 {
        assert(s.to_multiset().len() == 0);
    } else {
        let earlier = choose|earlier: Seq<T>|
            is_serialization(producers.drop_last(), earlier) && #[trigger] is_interleaving(
                earlier,
                producers.last(),
                s,
            );
        lemma_serialization_preserves_contents(producers.drop_last(), earlier);
        lemma_interleaving_preserves_contents(earlier, producers.last(), s);
    }
}

} // verus!
