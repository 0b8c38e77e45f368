//! Lazy statement sources in the shape the caller asked for, whatever the
//! shape of the engine behind them.
use vstd::prelude::*;

use crate::adapter::{adapt_quads_to_triples, adapt_triples_to_quads, quads_to_triples, triples_to_quads};
use crate::engine::{all_present, present_items, InnerStatementSource, NativeStatements};
use crate::errors::{DynSynParseError, InnerParseError};
use crate::statement::{Quad, Term, Triple};
use crate::syntax::{is_quad_capable, RdfSyntax};

verus! {

/// Brings the outcome of an engine step to the quad shape: quads pass through,
/// triples become quads of graph `g`, and an engine error becomes the unified
/// parse error.
pub fn quads_of_step(native: Result<Option<NativeStatements>, InnerParseError>, g: &Option<Term>) -> (r: Result<
    Option<Vec<Quad>>,
    DynSynParseError,
>)
    ensures
        match native {
            Ok(Some(NativeStatements::Quads(qs))) => r == Ok::<Option<Vec<Quad>>, DynSynParseError>(Some(qs)),
            Ok(Some(NativeStatements::Triples(ts))) => r matches Ok(Some(qs)) && qs@ == triples_to_quads(ts@, *g),
            Ok(None) => r matches Ok(None),
            Err(e) => r matches Err(x) && x.0 == e,
        },
{
    match native {
        Ok(Some(NativeStatements::Quads(qs))) => Ok(Some(qs)),
        Ok(Some(NativeStatements::Triples(ts))) => Ok(Some(adapt_triples_to_quads(&ts, g))),
        Ok(None) => Ok(None),
        Err(e) => Err(DynSynParseError(e)),
    }
}

/// Brings the outcome of an engine step to the triple shape: triples pass
/// through, the quads of graph `g` become triples and the others are dropped,
/// and an engine error becomes the unified parse error.
pub fn triples_of_step(native: Result<Option<NativeStatements>, InnerParseError>, g: &Option<Term>) -> (r: Result<
    Option<Vec<Triple>>,
    DynSynParseError,
>)
    ensures
        match native {
            Ok(Some(NativeStatements::Triples(ts))) => r == Ok::<Option<Vec<Triple>>, DynSynParseError>(Some(ts)),
            Ok(Some(NativeStatements::Quads(qs))) => r matches Ok(Some(ts)) && ts@ == quads_to_triples(qs@, *g),
            Ok(None) => r matches Ok(None),
            Err(e) => r matches Err(x) && x.0 == e,
        },
{
    match native {
        Ok(Some(NativeStatements::Triples(ts))) => Ok(Some(ts)),
        Ok(Some(NativeStatements::Quads(qs))) => Ok(Some(adapt_quads_to_triples(&qs, g))),
        Ok(None) => Ok(None),
        Err(e) => Err(DynSynParseError(e)),
    }
}

/// What a quad source returns for its engine's step `k`: the quads of a quad
/// engine, the triples of a triple engine as quads of graph `g`, an error where
/// a statement quotes a triple, or the engine's error.
pub open spec fn quad_step_result(
    inner: InnerStatementSource,
    k: nat,
    g: Option<Term>,
    r: Result<Option<Vec<Quad>>, DynSynParseError>,
) -> bool {
    if is_quad_capable(inner.syntax()) {
        match inner.quads_at(k) {
            Ok(v) => if all_present(v) {
                r matches Ok(Some(qs)) && qs@ == present_items(v)
            } else {
                r matches Err(e) && e.0 is QuotedTriple
            },
            Err(_) => r matches Err(e) && e.0 is Turtle,
        }
    } else {
        match inner.triples_at(k) {
            Ok(v) => if all_present(v) {
                r matches Ok(Some(qs)) && qs@ == triples_to_quads(present_items(v), g)
            } else {
                r matches Err(e) && e.0 is QuotedTriple
            },
            Err(_) => r matches Err(e) && (if inner.syntax() == RdfSyntax::RdfXml {
                e.0 is RdfXml
            } else {
                e.0 is Turtle
            }),
        }
    }
}

/// What a triple source returns for its engine's step `k`: the triples of a
/// triple engine, the triples of a quad engine's quads in graph `g`, an error
/// where a statement quotes a triple, or the engine's error.
pub open spec fn triple_step_result(
    inner: InnerStatementSource,
    k: nat,
    g: Option<Term>,
    r: Result<Option<Vec<Triple>>, DynSynParseError>,
) -> bool {
    if is_quad_capable(inner.syntax()) {
        match inner.quads_at(k) {
            Ok(v) => if all_present(v) {
                r matches Ok(Some(ts)) && ts@ == quads_to_triples(present_items(v), g)
            } else {
                r matches Err(e) && e.0 is QuotedTriple
            },
            Err(_) => r matches Err(e) && e.0 is Turtle,
        }
    } else {
        match inner.triples_at(k) {
            Ok(v) => if all_present(v) {
                r matches Ok(Some(ts)) && ts@ == present_items(v)
            } else {
                r matches Err(e) && e.0 is QuotedTriple
            },
            Err(_) => r matches Err(e) && (if inner.syntax() == RdfSyntax::RdfXml {
                e.0 is RdfXml
            } else {
                e.0 is Turtle
            }),
        }
    }
}

/// Whether step `k` of the engine succeeds without forwarding a quad to a
/// quad source (a directive, or an empty step).
pub open spec fn quad_step_forwards_nothing(inner: InnerStatementSource, k: nat) -> bool {
    &&& !inner.ends_at(k)
    &&& if is_quad_capable(inner.syntax()) {
        (inner.quads_at(k) matches Ok(v) && v.len() == 0)
    } else {
        (inner.triples_at(k) matches Ok(v) && v.len() == 0)
    }
}

/// Whether step `k` of the engine succeeds without forwarding a triple to a
/// triple source of graph `g` (a directive, an empty step, or only quads of
/// other graphs).
pub open spec fn triple_step_forwards_nothing(inner: InnerStatementSource, k: nat, g: Option<Term>) -> bool {
    &&& !inner.ends_at(k)
    &&& if is_quad_capable(inner.syntax()) {
        (inner.quads_at(k) matches Ok(v) && all_present(v) && quads_to_triples(present_items(v), g).len()
            == 0)
    } else {
        (inner.triples_at(k) matches Ok(v) && v.len() == 0)
    }
}

/// What one call of a quad source returns, starting from engine `inner` and
/// leaving it after `k1` steps: the steps it takes forward nothing but the
/// last, and the call returns what the last gives, or none where the document
/// ends.
pub open spec fn quad_call_result(
    inner: InnerStatementSource,
    k1: nat,
    g: Option<Term>,
    r: Result<Option<Vec<Quad>>, DynSynParseError>,
) -> bool {
    let k0 = inner.steps_taken();
    &&& k0 <= k1
    &&& match r {
        Ok(None) => inner.ends_at(k1) && forall|k: nat|
            k0 <= k < k1 ==> #[trigger] quad_step_forwards_nothing(inner, k),
        _ => k0 < k1 && (forall|k: nat|
            k0 <= k < k1 - 1 ==> #[trigger] quad_step_forwards_nothing(inner, k)) && !inner.ends_at(
            (k1 - 1) as nat,
        ) && quad_step_result(inner, (k1 - 1) as nat, g, r),
    }
}

/// What one call of a triple source returns, starting from engine `inner` and
/// leaving it after `k1` steps: the steps it takes forward nothing but the
/// last, and the call returns what the last gives, or none where the document
/// ends.
pub open spec fn triple_call_result(
    inner: InnerStatementSource,
    k1: nat,
    g: Option<Term>,
    r: Result<Option<Vec<Triple>>, DynSynParseError>,
) -> bool {
    let k0 = inner.steps_taken();
    &&& k0 <= k1
    &&& match r {
        Ok(None) => inner.ends_at(k1) && forall|k: nat|
            k0 <= k < k1 ==> #[trigger] triple_step_forwards_nothing(inner, k, g),
        _ => k0 < k1 && (forall|k: nat|
            k0 <= k < k1 - 1 ==> #[trigger] triple_step_forwards_nothing(inner, k, g))
            && !inner.ends_at((k1 - 1) as nat) && triple_step_result(inner, (k1 - 1) as nat, g, r),
    }
}

/// Whether step `k` of the engine fails on the document.
pub open spec fn step_fails(inner: InnerStatementSource, k: nat) -> bool {
    if is_quad_capable(inner.syntax()) {
        inner.quads_at(k) is Err
    } else {
        inner.triples_at(k) is Err
    }
}

/// A document on which the engine's next step fails makes a quad source call
/// return that engine's parse error: not a statement, not the end.
pub proof fn lemma_quad_source_reports_failure(
    inner: InnerStatementSource,
    k1: nat,
    g: Option<Term>,
    r: Result<Option<Vec<Quad>>, DynSynParseError>,
)
    requires
        quad_call_result(inner, k1, g, r),
        !inner.ends_at(inner.steps_taken()),
        step_fails(inner, inner.steps_taken()),
    ensures
        r matches Err(e) && !(e.0 is QuotedTriple),
{
    let k0 = inner.steps_taken();
    assert(!quad_step_forwards_nothing(inner, k0));
    if !(r matches Ok(None)) {
        assert(k1 - 1 == k0);
    }
}

/// A document on which the engine's next step fails makes a triple source
/// call return that engine's parse error: not a statement, not the end.
pub proof fn lemma_triple_source_reports_failure(
    inner: InnerStatementSource,
    k1: nat,
    g: Option<Term>,
    r: Result<Option<Vec<Triple>>, DynSynParseError>,
)
    requires
        triple_call_result(inner, k1, g, r),
        !inner.ends_at(inner.steps_taken()),
        step_fails(inner, inner.steps_taken()),
    ensures
        r matches Err(e) && !(e.0 is QuotedTriple),
{
    let k0 = inner.steps_taken();
    assert(!triple_step_forwards_nothing(inner, k0, g));
    if !(r matches Ok(None)) {
        assert(k1 - 1 == k0);
    }
}

/// A source of quads. A triple engine's triples come out as quads of the
/// configured graph; a quad engine's quads pass through.
///
/// The source stops for good at the end of the document or at the first error.
pub struct DynSynQuadSource {
    inner_source: InnerStatementSource,
    triple_source_graph_iri: Option<Term>,
    halted: bool,
}

impl DynSynQuadSource {
    /// The engine behind the source.
    pub closed spec fn inner(&self) -> InnerStatementSource {
        self.inner_source
    }

    /// The syntax of the engine behind the source.
    pub open spec fn syntax(&self) -> RdfSyntax {
        self.inner().syntax()
    }

    /// The graph that a triple engine's statements are put in.
    pub closed spec fn graph(&self) -> Option<Term> {
        self.triple_source_graph_iri
    }

    /// Whether the source has stopped, at the end or at an error.
    pub closed spec fn is_halted(&self) -> bool {
        self.halted
    }

    pub(crate) fn new_for(inner_source: InnerStatementSource, triple_source_graph_iri: Option<
        Term,
    >) -> (r: DynSynQuadSource)
        ensures
            r.inner() == inner_source,
            r.graph() == triple_source_graph_iri,
            !r.is_halted(),
    {
        DynSynQuadSource { inner_source, triple_source_graph_iri, halted: false }
    }

    /// The quads of the engine's next step, in order: none once the source has
    /// stopped. A source error stops the source, so nothing after it is
    /// delivered.
    pub fn try_for_some_quad(&mut self) -> (r: Result<Option<Vec<Quad>>, DynSynParseError>)
        ensures
            final(self).syntax() == old(self).syntax(),
            final(self).inner().document() == old(self).inner().document(),
            final(self).inner().base() == old(self).inner().base(),
            final(self).graph() == old(self).graph(),
            final(self).is_halted() <==> !(r matches Ok(Some(_))),
            old(self).is_halted() ==> (r matches Ok(None) && final(self).inner() == old(self).inner()),
            !old(self).is_halted() ==> quad_call_result(
                old(self).inner(),
                final(self).inner().steps_taken(),
                old(self).graph(),
                r,
            ),
            r matches Ok(Some(v)) ==> v@.len() > 0,
    {
        if self.halted {
            return Ok(None);
        }
        let ghost start = self.inner_source;
        let ghost k0 = self.inner_source.steps_taken();
        loop
            invariant
                !self.halted,
                !old(self).is_halted(),
                self.triple_source_graph_iri == old(self).graph(),
                start == old(self).inner(),
                self.inner_source.syntax() == start.syntax(),
                self.inner_source.document() == start.document(),
                self.inner_source.base() == start.base(),
                k0 == start.steps_taken(),
                k0 <= self.inner_source.steps_taken(),
                forall|k: nat|
                    k0 <= k < self.inner_source.steps_taken() ==> #[trigger] quad_step_forwards_nothing(start, k),
            decreases self.inner_source.step_bound() - self.inner_source.steps_taken(),
        {
            let ghost before = self.inner_source;
            let r = quads_of_step(self.inner_source.next_native(), &self.triple_source_graph_iri);
            let forwarded = match &r {
                Ok(Some(v)) => v.len() > 0,
                _ => true,
            };
            if forwarded {
                if !(r matches Ok(Some(_))) {
                    self.halted = true;
                }
                return r;
            }
            assert(quad_step_forwards_nothing(start, before.steps_taken()));
        }
    }
}

/// A source of triples. A quad engine's quads of the configured graph come out
/// as triples and its other quads are dropped; a triple engine's triples pass
/// through.
///
/// The source stops for good at the end of the document or at the first error.
pub struct DynSynTripleSource {
    inner_source: InnerStatementSource,
    quad_source_adapted_graph_iri: Option<Term>,
    halted: bool,
}

impl DynSynTripleSource {
    /// The engine behind the source.
    pub closed spec fn inner(&self) -> InnerStatementSource {
        self.inner_source
    }

    /// The syntax of the engine behind the source.
    pub open spec fn syntax(&self) -> RdfSyntax {
        self.inner().syntax()
    }

    /// The graph whose quads a quad engine's statements are taken from.
    pub closed spec fn graph(&self) -> Option<Term> {
        self.quad_source_adapted_graph_iri
    }

    /// Whether the source has stopped, at the end or at an error.
    pub closed spec fn is_halted(&self) -> bool {
        self.halted
    }

    pub(crate) fn new_for(inner_source: InnerStatementSource, quad_source_adapted_graph_iri: Option<
        Term,
    >) -> (r: DynSynTripleSource)
        ensures
            r.inner() == inner_source,
            r.graph() == quad_source_adapted_graph_iri,
            !r.is_halted(),
    {
        DynSynTripleSource { inner_source, quad_source_adapted_graph_iri, halted: false }
    }

    /// The triples of the engine's next step, in order: none once the source
    /// has stopped. A source error stops the source, so nothing after it is
    /// delivered.
    pub fn try_for_some_triple(&mut self) -> (r: Result<Option<Vec<Triple>>, DynSynParseError>)
        ensures
            final(self).syntax() == old(self).syntax(),
            final(self).inner().document() == old(self).inner().document(),
            final(self).inner().base() == old(self).inner().base(),
            final(self).graph() == old(self).graph(),
            final(self).is_halted() <==> !(r matches Ok(Some(_))),
            old(self).is_halted() ==> (r matches Ok(None) && final(self).inner() == old(self).inner()),
            !old(self).is_halted() ==> triple_call_result(
                old(self).inner(),
                final(self).inner().steps_taken(),
                old(self).graph(),
                r,
            ),
            r matches Ok(Some(v)) ==> v@.len() > 0,
    {
        if self.halted {
            return Ok(None);
        }
        let ghost start = self.inner_source;
        let ghost k0 = self.inner_source.steps_taken();
        loop
            invariant
                !self.halted,
                !old(self).is_halted(),
                self.quad_source_adapted_graph_iri == old(self).graph(),
                start == old(self).inner(),
                self.inner_source.syntax() == start.syntax(),
                self.inner_source.document() == start.document(),
                self.inner_source.base() == start.base(),
                k0 == start.steps_taken(),
                k0 <= self.inner_source.steps_taken(),
                forall|k: nat|
                    k0 <= k < self.inner_source.steps_taken() ==> #[trigger] triple_step_forwards_nothing(start, k, old(self).graph()),
            decreases self.inner_source.step_bound() - self.inner_source.steps_taken(),
        {
            let ghost before = self.inner_source;
            let r = triples_of_step(self.inner_source.next_native(), &self.quad_source_adapted_graph_iri);
            let forwarded = match &r {
                Ok(Some(v)) => v.len() > 0,
                _ => true,
            };
            if forwarded {
                if !(r matches Ok(Some(_))) {
                    self.halted = true;
                }
                return r;
            }
            assert(triple_step_forwards_nothing(start, before.steps_taken(), old(self).graph()));
        }
    }
}

} // verus!
