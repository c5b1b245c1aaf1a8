//! Properties of the generated state-tuple transitions.
use vstd::prelude::*;
use crate::setters::{output_states_spec, BuilderGenCtx, StateMarker};
use crate::field::Field;

verus! {

/// The per-field completeness flags after a setter whose output tuple is
/// `out` is called on a builder with flags `state`.
pub open spec fn apply_setter(state: Seq<bool>, out: Seq<StateMarker>) -> Seq<bool> {
    Seq::new(state.len(), |i: int| out[i] == StateMarker::Supplied || state[i])
}

/// The flags after calling, in order, the setters of the fields at the
/// positions in `order`.
pub open spec fn run_setters(fields: Seq<Field>, state: Seq<bool>, order: Seq<int>) -> Seq<bool>
    decreases order.len(),
{
    if order.len() == 0 {
        state
    } else {
        run_setters(
            fields,
            apply_setter(state, output_states_spec(fields, fields[order[0]].ident@)),
            order.drop_first(),
        )
    }
}

/// The finishing operation is available: every position holds the set marker.
pub open spec fn can_finish(state: Seq<bool>) -> bool {
    forall|i: int| 0 <= i < state.len() ==> state[i]
}

/// Setting field `k` changes the state tuple at position `k` alone, where
/// the set marker (carrying the field's declared type) takes its place.
pub proof fn lemma_setter_changes_one_position(ctx: BuilderGenCtx, k: int)
    requires
        ctx.wf(),
        0 <= k < ctx.fields@.len(),
    ensures
        output_states_spec(ctx.fields@, ctx.fields@[k].ident@).len() == ctx.fields@.len(),
        output_states_spec(ctx.fields@, ctx.fields@[k].ident@)[k] == StateMarker::Supplied,
        forall|i: int|
            0 <= i < ctx.fields@.len() && i != k
                ==> #[trigger] output_states_spec(ctx.fields@, ctx.fields@[k].ident@)[i] == StateMarker::Current,
{
    assert forall|i: int| 0 <= i < ctx.fields@.len() && i != k implies
        #[trigger] output_states_spec(ctx.fields@, ctx.fields@[k].ident@)[i] == StateMarker::Current by {
        assert(crate::field::norm_ident(ctx.fields@[i].ident@) != crate::field::norm_ident(ctx.fields@[k].ident@));
    }
}

proof fn lemma_run_at(ctx: BuilderGenCtx, state: Seq<bool>, order: Seq<int>, i: int)
    requires
        ctx.wf(),
        state.len() == ctx.fields@.len(),
        forall|k: int| 0 <= k < order.len() ==> 0 <= #[trigger] order[k] < ctx.fields@.len(),
        0 <= i < ctx.fields@.len(),
    ensures
        run_setters(ctx.fields@, state, order).len() == ctx.fields@.len(),
        run_setters(ctx.fields@, state, order)[i] == (state[i] || order.contains(i)),
    decreases order.len(),
{
    if order.len() > 0 {
        let out = output_states_spec(ctx.fields@, ctx.fields@[order[0]].ident@);
        let next = apply_setter(state, out);
        lemma_setter_changes_one_position(ctx, order[0]);
        let rest = order.drop_first();
        assert forall|k: int| 0 <= k < rest.len() implies 0 <= #[trigger] rest[k] < ctx.fields@.len() by {
            assert(rest[k] == order[k + 1]);
        }
        lemma_run_at(ctx, next, rest, i);
        assert(next[i] == (state[i] || order[0] == i));
        if rest.contains(i) {
            let k = choose|k: int| 0 <= k < rest.len() && rest[k] == i;
            assert(order[k + 1] == i);
        }
        if order.contains(i) && order[0] != i {
            let k = choose|k: int| 0 <= k < order.len() && order[k] == i;
            assert(rest[k - 1] == i);
        }
        if order[0] == i {
            assert(order.contains(i));
        }
    }
}

/// Starting from a builder with every field unset, the finishing operation
/// becomes available exactly when every field's setter has been called.
pub proof fn lemma_finish_iff_all_set(ctx: BuilderGenCtx, order: Seq<int>)
    requires
        ctx.wf(),
        forall|k: int| 0 <= k < order.len() ==> 0 <= #[trigger] order[k] < ctx.fields@.len(),
    ensures
        can_finish(run_setters(ctx.fields@, Seq::new(ctx.fields@.len(), |i: int| false), order))
            <==> forall|i: int| 0 <= i < ctx.fields@.len() ==> order.contains(i),
{
    let start = Seq::new(ctx.fields@.len(), |i: int| false);
    let end = run_setters(ctx.fields@, start, order);
    lemma_run_len(ctx.fields@, start, order);
    assert forall|i: int| 0 <= i < ctx.fields@.len() implies #[trigger] end[i] == order.contains(i) by {
        lemma_run_at(ctx, start, order, i);
    }
    if can_finish(end) {
        assert forall|i: int| 0 <= i < ctx.fields@.len() implies order.contains(i) by {
            assert(end[i]);
        }
    }
    if forall|i: int| 0 <= i < ctx.fields@.len() ==> order.contains(i) {
        assert forall|i: int| 0 <= i < end.len() implies end[i] by {
            assert(order.contains(i));
        }
    }
}

proof fn lemma_run_len(fields: Seq<Field>, state: Seq<bool>, order: Seq<int>)
    ensures
        run_setters(fields, state, order).len() == state.len(),
    decreases order.len(),
{
    if order.len() > 0 {
        let next = apply_setter(state, output_states_spec(fields, fields[order[0]].ident@));
        lemma_run_len(fields, next, order.drop_first());
    }
}

} // verus!
