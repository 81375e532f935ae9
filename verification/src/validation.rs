use vstd::prelude::*;
use crate::schema::{pair_lookup, unknown_names, validation_result, values_in_order};

verus! {

proof fn lemma_unknown_none(pairs: Seq<(Seq<char>, Seq<char>)>, known: Seq<Seq<char>>)
    ensures
        unknown_names(pairs, known).len() == 0 <==> forall|i: int|
            0 <= i < pairs.len() ==> known.contains(#[trigger] pairs[i].0),
    decreases pairs.len(),
{
    if pairs.len() > 0 {
        let rest = pairs.drop_last();
        lemma_unknown_none(rest, known);
        if unknown_names(pairs, known).len() == 0 {
            assert forall|i: int| 0 <= i < pairs.len() implies known.contains(#[trigger] pairs[i].0) by {
                if i < pairs.len() - 1 {
                    assert(rest[i] == pairs[i]);
                }
            }
        }
        if forall|i: int| 0 <= i < pairs.len() ==> known.contains(#[trigger] pairs[i].0) {
            assert forall|i: int| 0 <= i < rest.len() implies known.contains(#[trigger] rest[i].0) by {
                assert(rest[i] == pairs[i]);
            }
            assert(known.contains(pairs[pairs.len() - 1].0));
        }
    }
}

proof fn lemma_pair_lookup(pairs: Seq<(Seq<char>, Seq<char>)>, name: Seq<char>)
    ensures
        (exists|i: int| 0 <= i < pairs.len() && #[trigger] pairs[i].0 == name) ==> pair_lookup(
            pairs,
            name,
        ) is Some,
        pair_lookup(pairs, name) matches Some(v) ==> exists|i: int|
            0 <= i < pairs.len() && #[trigger] pairs[i].0 == name && pairs[i].1 == v,
    decreases pairs.len(),
{
    if pairs.len() > 0 {
        let rest = pairs.drop_last();
        lemma_pair_lookup(rest, name);
        if pairs.last().0 != name {
            if exists|i: int| 0 <= i < pairs.len() && #[trigger] pairs[i].0 == name {
                let i = choose|i: int| 0 <= i < pairs.len() && #[trigger] pairs[i].0 == name;
                assert(rest[i] == pairs[i]);
            }
            if pair_lookup(pairs, name) is Some {
                let i = choose|i: int|
                    0 <= i < rest.len() && #[trigger] rest[i].0 == name && rest[i].1 == pair_lookup(
                        pairs,
                        name,
                    )->0;
                assert(rest[i] == pairs[i]);
            }
        } else {
            assert(pairs[pairs.len() - 1].0 == name);
        }
    }
}

proof fn lemma_values_in_order(known: Seq<Seq<char>>, pairs: Seq<(Seq<char>, Seq<char>)>)
    requires
        forall|j: int| 0 <= j < known.len() ==> #[trigger] pair_lookup(pairs, known[j]) is Some,
    ensures
        values_in_order(known, pairs).len() == known.len(),
        forall|j: int|
            0 <= j < known.len() ==> Some(#[trigger] values_in_order(known, pairs)[j]) == pair_lookup(
                pairs,
                known[j],
            ),
    decreases known.len(),
{
    if known.len() > 0 {
        let rest = known.drop_last();
        assert forall|j: int| 0 <= j < rest.len() implies #[trigger] pair_lookup(pairs, rest[j]) is Some by {
            assert(rest[j] == known[j]);
        }
        lemma_values_in_order(rest, pairs);
        assert(pair_lookup(pairs, known[known.len() - 1]) is Some);
        assert forall|j: int| 0 <= j < known.len() implies Some(
            #[trigger] values_in_order(known, pairs)[j],
        ) == pair_lookup(pairs, known[j]) by {
            if j < known.len() - 1 {
                assert(rest[j] == known[j]);
            }
        }
    }
}

/// Validating name/value pairs against the known names succeeds exactly
/// when every pair names a known name. Where it succeeds and every known
/// name is given, there is one value for each known name, in the order of
/// the known names, and each is the value a pair gives for that name.
pub proof fn law_validation(
    pairs: Seq<(Seq<char>, Seq<char>)>,
    known: Seq<Seq<char>>,
    message: spec_fn(Seq<char>) -> Seq<char>,
)
    ensures
        validation_result(pairs, known, message) is Ok <==> forall|i: int|
            0 <= i < pairs.len() ==> known.contains(#[trigger] pairs[i].0),
        validation_result(pairs, known, message) matches Ok(v) ==> ((forall|j: int|
            0 <= j < known.len() ==> exists|i: int| 0 <= i < pairs.len() && #[trigger] pairs[i].0 == #[trigger] known[j])
            ==> {
            &&& v.len() == known.len()
            &&& forall|j: int|
                0 <= j < known.len() ==> exists|i: int|
                    0 <= i < pairs.len() && #[trigger] pairs[i].0 == known[j] && pairs[i].1 == #[trigger] v[j]
        }),
{
    lemma_unknown_none(pairs, known);
    if forall|j: int|
        0 <= j < known.len() ==> exists|i: int| 0 <= i < pairs.len() && #[trigger] pairs[i].0 == #[trigger] known[j] {
        assert forall|j: int| 0 <= j < known.len() implies #[trigger] pair_lookup(pairs, known[j]) is Some by {
            lemma_pair_lookup(pairs, known[j]);
        }
        lemma_values_in_order(known, pairs);
        let v = values_in_order(known, pairs);
        assert forall|j: int| 0 <= j < known.len() implies exists|i: int|
            0 <= i < pairs.len() && #[trigger] pairs[i].0 == known[j] && pairs[i].1 == #[trigger] v[j] by {
            lemma_pair_lookup(pairs, known[j]);
            assert(Some(v[j]) == pair_lookup(pairs, known[j]));
        }
    }
}

} // verus!
