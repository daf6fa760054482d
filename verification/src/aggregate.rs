//! Flattening of a completed job's nested result structure into an ordered
//! sequence of transcript strings. Every alternative of every group is
//! emitted, groups in their given order and, within each group, alternatives
//! in their given order.

use vstd::prelude::*;

use crate::transcript::TranscriptResult;

verus! {

/// What aggregation yields: nothing for an absent result, otherwise the
/// transcript texts of all groups' alternatives, flattened in order.
pub open spec fn spec_aggregate(result: Option<TranscriptResult>) -> Seq<Seq<char>> {
    match result {
        Option::None => Seq::empty(),
        Option::Some(r) => r@.flatten(),
    }
}

/// Flattens an optional result into the ordered sequence of its transcript
/// texts. Pure: no side effects and no failure path.
pub fn aggregate(result: &Option<TranscriptResult>) -> (out: Vec<String>)
    ensures
        out@.map_values(|s: String| s@) == spec_aggregate(*result),
{
    let mut out: Vec<String> = Vec::new();
    match result {
        Option::None => {
            proof {
                assert(out@.map_values(|s: String| s@) =~= spec_aggregate(*result));
            }
        },
        Option::Some(r) => {
            let n_groups = r.groups.len();
            let mut gi: usize = 0;
            while gi < n_groups
                invariant
                    n_groups == r.groups.len(),
                    gi <= n_groups,
                    out@.map_values(|s: String| s@) == r@.take(gi as int).flatten_alt(),
                decreases n_groups - gi,
            {
                let group = &r.groups[gi];
                let n_alts = group.alternatives.len();
                let mut ai: usize = 0;
                while ai < n_alts
                    invariant
                        n_groups == r.groups.len(),
                        gi < n_groups,
                        group == &r.groups[gi as int],
                        n_alts == group.alternatives.len(),
                        ai <= n_alts,
                        out@.map_values(|s: String| s@) == r@.take(gi as int).flatten_alt()
                            + group@.take(ai as int),
                    decreases n_alts - ai,
                {
                    let ghost prev = out@.map_values(|s: String| s@);
                    out.push(group.alternatives[ai].transcript.clone());
                    proof {
                        assert(out@.map_values(|s: String| s@) =~= prev.push(
                            group.alternatives@[ai as int]@,
                        ));
                        assert(group@.take(ai + 1) =~= group@.take(ai as int).push(
                            group.alternatives@[ai as int]@,
                        ));
                    }
                    ai = ai + 1;
                }
                proof {
                    assert(group@.take(n_alts as int) =~= group@);
                    assert(r@.take(gi + 1).drop_last() =~= r@.take(gi as int));
                    assert(r@.take(gi + 1).last() == group@);
                    assert(r@.take(gi + 1).flatten_alt() == r@.take(gi as int).flatten_alt()
                        + group@);
                }
                gi = gi + 1;
            }
            proof {
                assert(r@.take(n_groups as int) =~= r@);
                r@.lemma_flatten_and_flatten_alt_are_equivalent();
            }
        },
    }
    out
}

/// Within a flattened sequence of sequences, the element `j` of member `i`
/// stands at the position reached by the members before `i`.
proof fn lemma_flatten_index<A>(gs: Seq<Seq<A>>, i: int, j: int)
    requires
        0 <= i < gs.len(),
        0 <= j < gs[i].len(),
    ensures
        gs.take(i).flatten().len() + j < gs.flatten().len(),
        gs.flatten()[gs.take(i).flatten().len() + j] == gs[i][j],
    decreases gs.len(),
{
    gs.lemma_flatten_and_flatten_alt_are_equivalent();
    gs.drop_last().lemma_flatten_and_flatten_alt_are_equivalent();
    gs.take(i).lemma_flatten_and_flatten_alt_are_equivalent();
    assert(gs.flatten_alt() == gs.drop_last().flatten_alt() + gs.last());
    if i == gs.len() - 1 {
        assert(gs.take(i) =~= gs.drop_last());
    } else {
        lemma_flatten_index(gs.drop_last(), i, j);
        gs.drop_last().take(i).lemma_flatten_and_flatten_alt_are_equivalent();
        assert(gs.drop_last().take(i) =~= gs.take(i));
        assert(gs.drop_last()[i] == gs[i]);
    }
}

/// Aggregation preserves order: the text of alternative `j` of group `i`
/// appears in the output exactly at the position reached after all
/// alternatives of the groups before `i` and the first `j` alternatives of
/// group `i`, so groups appear in their given order and, within each group,
/// alternatives in their given order.
pub proof fn lemma_aggregate_preserves_order(r: TranscriptResult, i: int, j: int)
    requires
        0 <= i < r@.len(),
        0 <= j < r@[i].len(),
    ensures
        r@.take(i).flatten().len() + j < spec_aggregate(Some(r)).len(),
        spec_aggregate(Some(r))[r@.take(i).flatten().len() + j] == r@[i][j],
{
    lemma_flatten_index(r@, i, j);
}

} // verus!
