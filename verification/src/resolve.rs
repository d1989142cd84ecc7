use core::marker::PhantomData;
use vstd::prelude::*;

use crate::context::Context;
use crate::stream::Stream;
use crate::value::FieldValue;

verus! {

/// The outcome of one neighbor resolution: a lazy stream of vertices.
///
/// `Empty` is the substitute outcome for a context with no current vertex
/// and yields nothing; `Resolved` carries whatever stream the neighbor
/// resolver produced, to be drained later by the caller.
pub enum NeighborStream<N> {
    Empty,
    Resolved(N),
}

impl<V, N: Stream<V>> Stream<V> for NeighborStream<N> {
    open spec fn remaining(&self) -> Seq<V> {
        match self {
            NeighborStream::Empty => Seq::empty(),
            NeighborStream::Resolved(n) => n.remaining(),
        }
    }

    fn next(&mut self) -> (item: Option<V>) {
        match self {
            NeighborStream::Empty => None,
            NeighborStream::Resolved(n) => n.next(),
        }
    }
}

/// Holds when `resolver` may be called on the current vertex of every
/// context in `contexts`.
///
/// Contexts without a current vertex ask nothing of the resolver: their
/// outcome is substituted without calling it, so a resolver may assume it
/// only ever sees vertices that actually occur.
pub open spec fn resolver_accepts<V, R, F: Fn(&V) -> R>(
    resolver: F,
    contexts: Seq<Context<V>>,
) -> bool {
    forall|i: int| 0 <= i < contexts.len()
        ==> ((#[trigger] contexts[i]).current_vertex matches Some(vertex)
            ==> call_requires(resolver, (&vertex,)))
}

/// A lazy stream of `(context, scalar value)` pairs, produced by
/// [`resolve_property_with`].
pub struct PropertyStream<V, S: Stream<Context<V>>, F: Fn(&V) -> FieldValue> {
    contexts: S,
    resolver: F,
    marker: PhantomData<V>,
}

impl<V, S: Stream<Context<V>>, F: Fn(&V) -> FieldValue> PropertyStream<V, S, F> {
    /// The input contexts not yet paired with an outcome.
    pub closed spec fn contexts_remaining(&self) -> Seq<Context<V>> {
        self.contexts.remaining()
    }

    /// The per-vertex resolver this stream applies.
    pub closed spec fn resolver(&self) -> F {
        self.resolver
    }

    /// The resolver accepts the current vertex of every remaining context.
    pub closed spec fn wf(&self) -> bool {
        resolver_accepts(self.resolver, self.contexts.remaining())
    }

    /// Pulls one pair, driving exactly one pull from the input contexts.
    ///
    /// The pulled context is handed through unchanged. Its outcome is
    /// `FieldValue::Null` when it has no current vertex (the resolver is
    /// not called), and otherwise the result of one fresh resolver call on
    /// that vertex.
    pub fn next(&mut self) -> (item: Option<(Context<V>, FieldValue)>)
        requires
            old(self).wf(),
        ensures
            final(self).wf(),
            final(self).resolver() == old(self).resolver(),
            match item {
                Some(pair) => old(self).contexts_remaining().len() > 0
                    && pair.0 == old(self).contexts_remaining()[0]
                    && final(self).contexts_remaining()
                        == old(self).contexts_remaining().drop_first()
                    && (match pair.0.current_vertex {
                        None => pair.1 == FieldValue::Null,
                        Some(vertex) => call_ensures(old(self).resolver(), (&vertex,), pair.1),
                    }),
                None => old(self).contexts_remaining().len() == 0
                    && final(self).contexts_remaining() == old(self).contexts_remaining(),
            },
    {
        match self.contexts.next() {
            None => None,
            Some(ctx) => match &ctx.current_vertex {
                None => Some((ctx, FieldValue::Null)),
                Some(vertex) => {
                    let value = (self.resolver)(vertex);
                    Some((ctx, value))
                },
            },
        }
    }

    /// Drains the stream, pairing every remaining context with its outcome.
    ///
    /// The result has one pair per input context; the `i`-th pair carries
    /// the `i`-th input context unchanged, next to `FieldValue::Null` where
    /// that context has no current vertex and otherwise next to a value the
    /// resolver can produce for its vertex.
    pub fn drain(self) -> (pairs: Vec<(Context<V>, FieldValue)>)
        requires
            self.wf(),
        ensures
            pairs@.len() == self.contexts_remaining().len(),
            forall|i: int| 0 <= i < pairs@.len()
                ==> (#[trigger] pairs@[i]).0 == self.contexts_remaining()[i],
            forall|i: int| 0 <= i < pairs@.len()
                ==> ((#[trigger] pairs@[i]).0.current_vertex matches Some(vertex)
                    ==> call_ensures(self.resolver(), (&vertex,), pairs@[i].1)),
            forall|i: int| 0 <= i < pairs@.len()
                ==> ((#[trigger] pairs@[i]).0.current_vertex is None
                    ==> pairs@[i].1 == FieldValue::Null),
    {
        let mut cur = self;
        let mut pairs: Vec<(Context<V>, FieldValue)> = Vec::new();
        loop
            invariant
                cur.wf(),
                cur.resolver() == self.resolver(),
                pairs@.len() <= self.contexts_remaining().len(),
                cur.contexts_remaining() == self.contexts_remaining().skip(pairs@.len() as int),
                forall|i: int| 0 <= i < pairs@.len()
                    ==> (#[trigger] pairs@[i]).0 == self.contexts_remaining()[i],
                forall|i: int| 0 <= i < pairs@.len()
                    ==> ((#[trigger] pairs@[i]).0.current_vertex matches Some(vertex)
                        ==> call_ensures(self.resolver(), (&vertex,), pairs@[i].1)),
                forall|i: int| 0 <= i < pairs@.len()
                    ==> ((#[trigger] pairs@[i]).0.current_vertex is None
                        ==> pairs@[i].1 == FieldValue::Null),
            ensures
                pairs@.len() == self.contexts_remaining().len(),
                forall|i: int| 0 <= i < pairs@.len()
                    ==> (#[trigger] pairs@[i]).0 == self.contexts_remaining()[i],
                forall|i: int| 0 <= i < pairs@.len()
                    ==> ((#[trigger] pairs@[i]).0.current_vertex matches Some(vertex)
                        ==> call_ensures(self.resolver(), (&vertex,), pairs@[i].1)),
                forall|i: int| 0 <= i < pairs@.len()
                    ==> ((#[trigger] pairs@[i]).0.current_vertex is None
                        ==> pairs@[i].1 == FieldValue::Null),
            decreases cur.contexts_remaining().len(),
        {
            match cur.next() {
                None => {
                    break;
                },
                Some(pair) => {
                    pairs.push(pair);
                    proof {
                        assert(cur.contexts_remaining()
                            =~= self.contexts_remaining().skip(pairs@.len() as int));
                    }
                },
            }
        }
        pairs
    }
}

/// Lifts a per-vertex property resolver over a lazy context stream.
///
/// The returned stream pairs each input context, in order and unchanged,
/// with the scalar the resolver produces for its current vertex, or with
/// `FieldValue::Null` when the context has no current vertex.
pub fn resolve_property_with<V, S: Stream<Context<V>>, F: Fn(&V) -> FieldValue>(
    contexts: S,
    property_resolver: F,
) -> (resolved: PropertyStream<V, S, F>)
    requires
        resolver_accepts(property_resolver, contexts.remaining()),
    ensures
        resolved.wf(),
        resolved.contexts_remaining() == contexts.remaining(),
        resolved.resolver() == property_resolver,
{
    PropertyStream { contexts, resolver: property_resolver, marker: PhantomData }
}

/// A lazy stream of `(context, vertex stream)` pairs, produced by
/// [`resolve_neighbors_with`].
#[verifier::reject_recursive_types(N)]
pub struct NeighborsStream<V, S: Stream<Context<V>>, N: Stream<V>, F: Fn(&V) -> N> {
    contexts: S,
    resolver: F,
    marker: PhantomData<(V, N)>,
}

impl<V, S: Stream<Context<V>>, N: Stream<V>, F: Fn(&V) -> N> NeighborsStream<V, S, N, F> {
    /// The input contexts not yet paired with an outcome.
    pub closed spec fn contexts_remaining(&self) -> Seq<Context<V>> {
        self.contexts.remaining()
    }

    /// The per-vertex resolver this stream applies.
    pub closed spec fn resolver(&self) -> F {
        self.resolver
    }

    /// The resolver accepts the current vertex of every remaining context.
    pub closed spec fn wf(&self) -> bool {
        resolver_accepts(self.resolver, self.contexts.remaining())
    }

    /// Pulls one pair, driving exactly one pull from the input contexts.
    ///
    /// The pulled context is handed through unchanged. Its outcome is the
    /// empty vertex stream when it has no current vertex (the resolver is
    /// not called), and otherwise the vertex stream one fresh resolver call
    /// produced for that vertex — handed back unconsumed, to be drained by
    /// the caller.
    pub fn next(&mut self) -> (item: Option<(Context<V>, NeighborStream<N>)>)
        requires
            old(self).wf(),
        ensures
            final(self).wf(),
            final(self).resolver() == old(self).resolver(),
            match item {
                Some(pair) => old(self).contexts_remaining().len() > 0
                    && pair.0 == old(self).contexts_remaining()[0]
                    && final(self).contexts_remaining()
                        == old(self).contexts_remaining().drop_first()
                    && (match pair.0.current_vertex {
                        None => pair.1 == NeighborStream::<N>::Empty,
                        Some(vertex) => (pair.1 matches NeighborStream::Resolved(n)
                            && call_ensures(old(self).resolver(), (&vertex,), n)),
                    }),
                None => old(self).contexts_remaining().len() == 0
                    && final(self).contexts_remaining() == old(self).contexts_remaining(),
            },
    {
        match self.contexts.next() {
            None => None,
            Some(ctx) => match &ctx.current_vertex {
                None => Some((ctx, NeighborStream::Empty)),
                Some(vertex) => {
                    let neighbors = (self.resolver)(vertex);
                    Some((ctx, NeighborStream::Resolved(neighbors)))
                },
            },
        }
    }

    /// Drains the stream, pairing every remaining context with its outcome.
    ///
    /// The result has one pair per input context; the `i`-th pair carries
    /// the `i`-th input context unchanged, next to an empty vertex stream
    /// where that context has no current vertex and otherwise next to a
    /// vertex stream the resolver can produce for its vertex.
    pub fn drain(self) -> (pairs: Vec<(Context<V>, NeighborStream<N>)>)
        requires
            self.wf(),
        ensures
            pairs@.len() == self.contexts_remaining().len(),
            forall|i: int| 0 <= i < pairs@.len()
                ==> (#[trigger] pairs@[i]).0 == self.contexts_remaining()[i],
            forall|i: int| 0 <= i < pairs@.len()
                ==> ((#[trigger] pairs@[i]).0.current_vertex matches Some(vertex)
                    ==> (pairs@[i].1 matches NeighborStream::Resolved(n)
                        && call_ensures(self.resolver(), (&vertex,), n))),
            forall|i: int| 0 <= i < pairs@.len()
                ==> ((#[trigger] pairs@[i]).0.current_vertex is None
                    ==> pairs@[i].1 == NeighborStream::<N>::Empty),
    {
        let mut cur = self;
        let mut pairs: Vec<(Context<V>, NeighborStream<N>)> = Vec::new();
        loop
            invariant
                cur.wf(),
                cur.resolver() == self.resolver(),
                pairs@.len() <= self.contexts_remaining().len(),
                cur.contexts_remaining() == self.contexts_remaining().skip(pairs@.len() as int),
                forall|i: int| 0 <= i < pairs@.len()
                    ==> (#[trigger] pairs@[i]).0 == self.contexts_remaining()[i],
                forall|i: int| 0 <= i < pairs@.len()
                    ==> ((#[trigger] pairs@[i]).0.current_vertex matches Some(vertex)
                        ==> (pairs@[i].1 matches NeighborStream::Resolved(n)
                            && call_ensures(self.resolver(), (&vertex,), n))),
                forall|i: int| 0 <= i < pairs@.len()
                    ==> ((#[trigger] pairs@[i]).0.current_vertex is None
                        ==> pairs@[i].1 == NeighborStream::<N>::Empty),
            ensures
                pairs@.len() == self.contexts_remaining().len(),
                forall|i: int| 0 <= i < pairs@.len()
                    ==> (#[trigger] pairs@[i]).0 == self.contexts_remaining()[i],
                forall|i: int| 0 <= i < pairs@.len()
                    ==> ((#[trigger] pairs@[i]).0.current_vertex matches Some(vertex)
                        ==> (pairs@[i].1 matches NeighborStream::Resolved(n)
                            && call_ensures(self.resolver(), (&vertex,), n))),
                forall|i: int| 0 <= i < pairs@.len()
                    ==> ((#[trigger] pairs@[i]).0.current_vertex is None
                        ==> pairs@[i].1 == NeighborStream::<N>::Empty),
            decreases cur.contexts_remaining().len(),
        {
            match cur.next() {
                None => {
                    break;
                },
                Some(pair) => {
                    pairs.push(pair);
                    proof {
                        assert(cur.contexts_remaining()
                            =~= self.contexts_remaining().skip(pairs@.len() as int));
                    }
                },
            }
        }
        pairs
    }
}

/// Lifts a per-vertex neighbor resolver over a lazy context stream.
///
/// The returned stream pairs each input context, in order and unchanged,
/// with the lazy vertex stream the resolver produces for its current
/// vertex, or with an empty vertex stream when the context has no current
/// vertex.
pub fn resolve_neighbors_with<V, S: Stream<Context<V>>, N: Stream<V>, F: Fn(&V) -> N>(
    contexts: S,
    neighbors_resolver: F,
) -> (resolved: NeighborsStream<V, S, N, F>)
    requires
        resolver_accepts(neighbors_resolver, contexts.remaining()),
    ensures
        resolved.wf(),
        resolved.contexts_remaining() == contexts.remaining(),
        resolved.resolver() == neighbors_resolver,
{
    NeighborsStream { contexts, resolver: neighbors_resolver, marker: PhantomData }
}

/// A lazy stream of `(context, boolean)` pairs, produced by
/// [`resolve_coercion_with`].
pub struct CoercionStream<V, S: Stream<Context<V>>, F: Fn(&V) -> bool> {
    contexts: S,
    resolver: F,
    marker: PhantomData<V>,
}

impl<V, S: Stream<Context<V>>, F: Fn(&V) -> bool> CoercionStream<V, S, F> {
    /// The input contexts not yet paired with an outcome.
    pub closed spec fn contexts_remaining(&self) -> Seq<Context<V>> {
        self.contexts.remaining()
    }

    /// The per-vertex resolver this stream applies.
    pub closed spec fn resolver(&self) -> F {
        self.resolver
    }

    /// The resolver accepts the current vertex of every remaining context.
    pub closed spec fn wf(&self) -> bool {
        resolver_accepts(self.resolver, self.contexts.remaining())
    }

    /// Pulls one pair, driving exactly one pull from the input contexts.
    ///
    /// The pulled context is handed through unchanged. Its outcome is
    /// `false` when it has no current vertex (the resolver is not called),
    /// and otherwise the result of one fresh resolver call on that vertex.
    pub fn next(&mut self) -> (item: Option<(Context<V>, bool)>)
        requires
            old(self).wf(),
        ensures
            final(self).wf(),
            final(self).resolver() == old(self).resolver(),
            match item {
                Some(pair) => old(self).contexts_remaining().len() > 0
                    && pair.0 == old(self).contexts_remaining()[0]
                    && final(self).contexts_remaining()
                        == old(self).contexts_remaining().drop_first()
                    && (match pair.0.current_vertex {
                        None => pair.1 == false,
                        Some(vertex) => call_ensures(old(self).resolver(), (&vertex,), pair.1),
                    }),
                None => old(self).contexts_remaining().len() == 0
                    && final(self).contexts_remaining() == old(self).contexts_remaining(),
            },
    {
        match self.contexts.next() {
            None => None,
            Some(ctx) => match &ctx.current_vertex {
                None => Some((ctx, false)),
                Some(vertex) => {
                    let can_coerce = (self.resolver)(vertex);
                    Some((ctx, can_coerce))
                },
            },
        }
    }

    /// Drains the stream, pairing every remaining context with its outcome.
    ///
    /// The result has one pair per input context; the `i`-th pair carries
    /// the `i`-th input context unchanged, next to `false` where that
    /// context has no current vertex and otherwise next to a boolean the
    /// resolver can produce for its vertex.
    pub fn drain(self) -> (pairs: Vec<(Context<V>, bool)>)
        requires
            self.wf(),
        ensures
            pairs@.len() == self.contexts_remaining().len(),
            forall|i: int| 0 <= i < pairs@.len()
                ==> (#[trigger] pairs@[i]).0 == self.contexts_remaining()[i],
            forall|i: int| 0 <= i < pairs@.len()
                ==> ((#[trigger] pairs@[i]).0.current_vertex matches Some(vertex)
                    ==> call_ensures(self.resolver(), (&vertex,), pairs@[i].1)),
            forall|i: int| 0 <= i < pairs@.len()
                ==> ((#[trigger] pairs@[i]).0.current_vertex is None
                    ==> pairs@[i].1 == false),
    {
        let mut cur = self;
        let mut pairs: Vec<(Context<V>, bool)> = Vec::new();
        loop
            invariant
                cur.wf(),
                cur.resolver() == self.resolver(),
                pairs@.len() <= self.contexts_remaining().len(),
                cur.contexts_remaining() == self.contexts_remaining().skip(pairs@.len() as int),
                forall|i: int| 0 <= i < pairs@.len()
                    ==> (#[trigger] pairs@[i]).0 == self.contexts_remaining()[i],
                forall|i: int| 0 <= i < pairs@.len()
                    ==> ((#[trigger] pairs@[i]).0.current_vertex matches Some(vertex)
                        ==> call_ensures(self.resolver(), (&vertex,), pairs@[i].1)),
                forall|i: int| 0 <= i < pairs@.len()
                    ==> ((#[trigger] pairs@[i]).0.current_vertex is None
                        ==> pairs@[i].1 == false),
            ensures
                pairs@.len() == self.contexts_remaining().len(),
                forall|i: int| 0 <= i < pairs@.len()
                    ==> (#[trigger] pairs@[i]).0 == self.contexts_remaining()[i],
                forall|i: int| 0 <= i < pairs@.len()
                    ==> ((#[trigger] pairs@[i]).0.current_vertex matches Some(vertex)
                        ==> call_ensures(self.resolver(), (&vertex,), pairs@[i].1)),
                forall|i: int| 0 <= i < pairs@.len()
                    ==> ((#[trigger] pairs@[i]).0.current_vertex is None
                        ==> pairs@[i].1 == false),
            decreases cur.contexts_remaining().len(),
        {
            match cur.next() {
                None => {
                    break;
                },
                Some(pair) => {
                    pairs.push(pair);
                    proof {
                        assert(cur.contexts_remaining()
                            =~= self.contexts_remaining().skip(pairs@.len() as int));
                    }
                },
            }
        }
        pairs
    }
}

/// Lifts a per-vertex coercion resolver over a lazy context stream.
///
/// The returned stream pairs each input context, in order and unchanged,
/// with the boolean the resolver produces for its current vertex, or with
/// `false` when the context has no current vertex.
pub fn resolve_coercion_with<V, S: Stream<Context<V>>, F: Fn(&V) -> bool>(
    contexts: S,
    coercion_resolver: F,
) -> (resolved: CoercionStream<V, S, F>)
    requires
        resolver_accepts(coercion_resolver, contexts.remaining()),
    ensures
        resolved.wf(),
        resolved.contexts_remaining() == contexts.remaining(),
        resolved.resolver() == coercion_resolver,
{
    CoercionStream { contexts, resolver: coercion_resolver, marker: PhantomData }
}

} // verus!
