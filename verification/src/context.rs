use vstd::prelude::*;

verus! {

/// One traversal path's record, flowing through the resolution steps.
///
/// It carries at most one current vertex, plus interpreter state that this
/// layer passes through untouched (modelled here by the `state` field).
/// A context with `current_vertex == None` arises, for example, after an
/// optional traversal step that found nothing; resolution then substitutes
/// a fixed outcome instead of calling the per-vertex function.
#[derive(Debug, Clone, PartialEq, Eq)]
pub struct Context<V> {
    /// The vertex that resolution operates on, if the context has one.
    pub current_vertex: Option<V>,
    /// Opaque accumulated interpreter state, never inspected by this layer.
    pub state: u64,
}

impl<V> Context<V> {
    /// A context that currently holds `vertex` (or none) and the given
    /// interpreter state.
    pub fn new(current_vertex: Option<V>, state: u64) -> (ctx: Self)
        ensures
            ctx.current_vertex == current_vertex,
            ctx.state == state,
    {
        Context { current_vertex, state }
    }
}

} // verus!
