//! Adaptation between the triple and the quad shape of statements.
use vstd::prelude::*;

use crate::statement::{copied_opt, graph_eq, same_graph, Quad, Term, Triple};

verus! {

/// The quad that puts a triple in the given graph.
pub open spec fn quad_of(t: Triple, g: Option<Term>) -> Quad {
    Quad { subject: t.subject, predicate: t.predicate, object: t.object, graph_name: g }
}

/// The triple of a quad, its graph name left out.
pub open spec fn triple_of(q: Quad) -> Triple {
    Triple { subject: q.subject, predicate: q.predicate, object: q.object }
}

/// Whether a quad lies in the given graph, by value.
pub open spec fn in_graph(q: Quad, g: Option<Term>) -> bool {
    same_graph(q.graph_name, g)
}

/// Every triple, in order, as a quad of the given graph.
pub open spec fn triples_to_quads(ts: Seq<Triple>, g: Option<Term>) -> Seq<Quad> {
    ts.map_values(|t: Triple| quad_of(t, g))
}

/// The triples, in order, of the quads that lie in the given graph.
pub open spec fn quads_to_triples(qs: Seq<Quad>, g: Option<Term>) -> Seq<Triple> {
    qs.filter(|q: Quad| in_graph(q, g)).map_values(|q: Quad| triple_of(q))
}

/// Every triple as a quad of graph `g`, in order.
pub fn adapt_triples_to_quads(native: &Vec<Triple>, g: &Option<Term>) -> (r: Vec<Quad>)
    ensures
        r@ == triples_to_quads(native@, *g),
{
    let mut r: Vec<Quad> = Vec::new();
    let mut i: usize = 0;
    while i < native.len()
        invariant
            i <= native@.len(),
            r@ == triples_to_quads(native@.subrange(0, i as int), *g),
        decreases native.len() - i,
    {
        let t = native[i].copied();
        r.push(Quad {
            subject: t.subject,
            predicate: t.predicate,
            object: t.object,
            graph_name: copied_opt(g),
        });
        assert(native@.subrange(0, i + 1) =~= native@.subrange(0, i as int).push(native@[i as int]));
        i = i + 1;
        assert(r@ =~= triples_to_quads(native@.subrange(0, i as int), *g));
    }
    assert(native@.subrange(0, native@.len() as int) =~= native@);
    r
}

/// The triples of the quads that lie in graph `g`, in order; the others are
/// left out.
pub fn adapt_quads_to_triples(native: &Vec<Quad>, g: &Option<Term>) -> (r: Vec<Triple>)
    ensures
        r@ == quads_to_triples(native@, *g),
{
    let ghost pred = |q: Quad| in_graph(q, *g);
    let mut r: Vec<Triple> = Vec::new();
    let mut i: usize = 0;
    assert(native@.subrange(0, 0).filter(pred) =~= Seq::<Quad>::empty()) by {
        reveal_with_fuel(Seq::filter, 1);
    }
    while i < native.len()
        invariant
            i <= native@.len(),
            pred == (|q: Quad| in_graph(q, *g)),
            r@ == quads_to_triples(native@.subrange(0, i as int), *g),
        decreases native.len() - i,
    {
        let ghost before = native@.subrange(0, i as int);
        let q = &native[i];
        assert(native@.subrange(0, i + 1) =~= before.push(native@[i as int]));
        proof {
            before.lemma_filter_push(native@[i as int], pred);
        }
        if graph_eq(&q.graph_name, g) {
            let c = q.copied();
            r.push(Triple { subject: c.subject, predicate: c.predicate, object: c.object });
        }
        i = i + 1;
        assert(r@ =~= quads_to_triples(native@.subrange(0, i as int), *g));
    }
    assert(native@.subrange(0, native@.len() as int) =~= native@);
    r
}

/// A triple stream read as quads of graph `g` has one quad per triple, each in
/// graph `g` and with the triple's subject, predicate and object.
pub proof fn lemma_triples_as_quads(ts: Seq<Triple>, g: Option<Term>)
    ensures
        triples_to_quads(ts, g).len() == ts.len(),
        forall|i: int|
            0 <= i < ts.len() ==> (#[trigger] triples_to_quads(ts, g)[i]).graph_name == g
                && triple_of(triples_to_quads(ts, g)[i]) == ts[i],
{
}

/// A quad stream read as triples of graph `g` yields exactly the triples of
/// the quads in graph `g`: as many as those quads, in their order.
pub proof fn lemma_quads_as_triples(qs: Seq<Quad>, g: Option<Term>)
    ensures
        quads_to_triples(qs, g).len() == qs.filter(|q: Quad| in_graph(q, g)).len(),
        forall|i: int|
            0 <= i < quads_to_triples(qs, g).len() ==> exists|j: int|
                0 <= j < qs.len() && in_graph(qs[j], g) && #[trigger] quads_to_triples(qs, g)[i]
                    == triple_of(qs[j]),
        forall|j: int|
            0 <= j < qs.len() && in_graph(qs[j], g) ==> quads_to_triples(qs, g).contains(
                triple_of(#[trigger] qs[j]),
            ),
{
    let pred = |q: Quad| in_graph(q, g);
    let f = qs.filter(pred);
    qs.filter_lemma(pred);
    assert forall|i: int| 0 <= i < quads_to_triples(qs, g).len() implies exists|j: int|
        0 <= j < qs.len() && in_graph(qs[j], g) && #[trigger] quads_to_triples(qs, g)[i]
            == triple_of(qs[j]) by {
        assert(pred(f[i]));
        qs.lemma_filter_contains_rev(pred, f[i]);
        let j = choose|j: int| 0 <= j < qs.len() && qs[j] == f[i];
        assert(in_graph(qs[j], g));
    }
    assert forall|j: int| 0 <= j < qs.len() && in_graph(qs[j], g) implies quads_to_triples(
        qs,
        g,
    ).contains(triple_of(#[trigger] qs[j])) by {
        assert(pred(qs[j]));
        assert(f.contains(qs[j]));
        let k = choose|k: int| 0 <= k < f.len() && f[k] == qs[j];
        assert(quads_to_triples(qs, g)[k] == triple_of(qs[j]));
    }
}

} // verus!
