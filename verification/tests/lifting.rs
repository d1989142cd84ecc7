//! Behaviour of the three lifted resolution operations.

use std::cell::Cell;

use lazy_resolve::{
    drain_stream, resolve_coercion_with, resolve_neighbors_with, resolve_property_with, Context,
    FieldValue, VecStream,
};

fn contexts_of(vertices: Vec<Option<String>>) -> Vec<Context<String>> {
    vertices
        .into_iter()
        .enumerate()
        .map(|(i, v)| Context::new(v, i as u64))
        .collect()
}

#[test]
fn property_scenario_three_contexts() {
    let ctxs = contexts_of(vec![None, Some(String::from("X")), None]);
    let expected: Vec<Context<String>> = ctxs.clone();
    let calls = Cell::new(0u32);
    let extractor = |v: &String| {
        calls.set(calls.get() + 1);
        FieldValue::String(v.clone())
    };
    let pairs = resolve_property_with(VecStream::new(ctxs), extractor).drain();
    assert_eq!(pairs.len(), 3);
    assert_eq!(pairs[0].0, expected[0]);
    assert_eq!(pairs[0].1, FieldValue::Null);
    assert_eq!(pairs[1].0, expected[1]);
    assert_eq!(pairs[1].1, FieldValue::String(String::from("X")));
    assert_eq!(pairs[2].0, expected[2]);
    assert_eq!(pairs[2].1, FieldValue::Null);
    assert_eq!(calls.get(), 1);
}

#[test]
fn property_length_and_order_preserved() {
    let ctxs = contexts_of(vec![
        Some(String::from("a")),
        None,
        Some(String::from("b")),
        Some(String::from("c")),
        None,
    ]);
    let expected: Vec<Context<String>> = ctxs.clone();
    let pairs =
        resolve_property_with(VecStream::new(ctxs), |v: &String| FieldValue::String(v.clone()))
            .drain();
    assert_eq!(pairs.len(), expected.len());
    for (i, pair) in pairs.iter().enumerate() {
        assert_eq!(pair.0, expected[i]);
    }
}

#[test]
fn absent_vertex_never_calls_property_resolver() {
    let ctxs = contexts_of(vec![None, None, None]);
    let calls = Cell::new(0u32);
    let extractor = |v: &String| {
        calls.set(calls.get() + 1);
        FieldValue::String(v.clone())
    };
    let pairs = resolve_property_with(VecStream::new(ctxs), extractor).drain();
    assert_eq!(pairs.len(), 3);
    for pair in &pairs {
        assert_eq!(pair.1, FieldValue::Null);
    }
    assert_eq!(calls.get(), 0);
}

#[test]
fn absent_vertex_never_calls_coercion_resolver() {
    let ctxs = contexts_of(vec![None, None]);
    let calls = Cell::new(0u32);
    let pairs = resolve_coercion_with(VecStream::new(ctxs), |_v: &String| {
        calls.set(calls.get() + 1);
        true
    })
    .drain();
    assert_eq!(pairs.len(), 2);
    assert!(!pairs[0].1);
    assert!(!pairs[1].1);
    assert_eq!(calls.get(), 0);
}

#[test]
fn absent_vertex_neighbor_stream_drains_empty() {
    let ctxs = contexts_of(vec![None]);
    let calls = Cell::new(0u32);
    let pairs = resolve_neighbors_with(VecStream::new(ctxs), |_v: &String| {
        calls.set(calls.get() + 1);
        VecStream::new(vec![String::from("n")])
    })
    .drain();
    assert_eq!(pairs.len(), 1);
    assert_eq!(calls.get(), 0);
    let mut outcomes = pairs;
    let neighbors = drain_stream(outcomes.remove(0).1);
    assert_eq!(neighbors.len(), 0);
}

#[test]
fn present_vertex_delegates_and_never_caches() {
    // The same vertex stands in two contexts: the resolver runs once per
    // context, and each outcome equals a direct call on that vertex.
    let vertex = String::from("V");
    let ctxs = contexts_of(vec![Some(vertex.clone()), Some(vertex.clone())]);
    let calls = Cell::new(0u32);
    let extractor = |v: &String| {
        calls.set(calls.get() + 1);
        FieldValue::String(v.clone())
    };
    let direct = FieldValue::String(vertex.clone());
    let pairs = resolve_property_with(VecStream::new(ctxs), extractor).drain();
    assert_eq!(pairs[0].1, direct);
    assert_eq!(pairs[1].1, direct);
    assert_eq!(calls.get(), 2);
}

#[test]
fn pulling_k_pairs_invokes_resolver_at_most_k_times() {
    let ctxs = contexts_of(vec![
        Some(String::from("a")),
        Some(String::from("b")),
        Some(String::from("c")),
        Some(String::from("d")),
    ]);
    let calls = Cell::new(0u32);
    let extractor = |v: &String| {
        calls.set(calls.get() + 1);
        FieldValue::String(v.clone())
    };
    let mut lifted = resolve_property_with(VecStream::new(ctxs), extractor);
    assert!(lifted.next().is_some());
    assert!(lifted.next().is_some());
    assert_eq!(calls.get(), 2);
}

#[test]
fn neighbor_scenario_two_neighbors() {
    let ctxs = contexts_of(vec![None, Some(String::from("V")), None]);
    let expected: Vec<Context<String>> = ctxs.clone();
    let calls = Cell::new(0u32);
    let resolver = |v: &String| {
        calls.set(calls.get() + 1);
        VecStream::new(vec![format!("{v}1"), format!("{v}2")])
    };
    let pairs = resolve_neighbors_with(VecStream::new(ctxs), resolver).drain();
    assert_eq!(pairs.len(), 3);
    let mut pairs = pairs;
    let (third_ctx, third_outcome) = pairs.remove(2);
    let (second_ctx, second_outcome) = pairs.remove(1);
    let (first_ctx, first_outcome) = pairs.remove(0);
    assert_eq!(first_ctx, expected[0]);
    assert_eq!(second_ctx, expected[1]);
    assert_eq!(third_ctx, expected[2]);
    assert_eq!(drain_stream(first_outcome).len(), 0);
    assert_eq!(
        drain_stream(second_outcome),
        vec![String::from("V1"), String::from("V2")]
    );
    assert_eq!(drain_stream(third_outcome).len(), 0);
    assert_eq!(calls.get(), 1);
}

#[test]
fn coercion_outcomes_follow_resolver() {
    let ctxs = contexts_of(vec![
        Some(String::from("match")),
        Some(String::from("other")),
        None,
    ]);
    let pairs =
        resolve_coercion_with(VecStream::new(ctxs), |v: &String| v.as_str() == "match").drain();
    assert_eq!(pairs.len(), 3);
    assert!(pairs[0].1);
    assert!(!pairs[1].1);
    assert!(!pairs[2].1);
}

#[test]
fn exhausted_lifted_stream_stays_exhausted() {
    let ctxs = contexts_of(vec![Some(String::from("a"))]);
    let mut lifted =
        resolve_property_with(VecStream::new(ctxs), |v: &String| FieldValue::String(v.clone()));
    assert!(lifted.next().is_some());
    assert!(lifted.next().is_none());
    assert!(lifted.next().is_none());
}
