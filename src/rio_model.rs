//! The terms and statements that the parsing engines hand out, and their
//! conversion to and from the library's own statement model.
use vstd::prelude::*;

use rio_api::model::BlankNode as RioBlankNode;
use rio_api::model::GraphName as RioGraphName;
use rio_api::model::Literal as RioLiteral;
use rio_api::model::NamedNode as RioNamedNode;
use rio_api::model::Quad as RioQuad;
use rio_api::model::Subject as RioSubject;
use rio_api::model::Term as RioTerm;
use rio_api::model::Triple as RioTriple;

use crate::statement::{Quad, Term, Triple};
use crate::text::owned;

verus! {

#[verifier::external_type_specification]
pub struct ExNamedNode<'a>(RioNamedNode<'a>);

#[verifier::external_type_specification]
pub struct ExBlankNode<'a>(RioBlankNode<'a>);

#[verifier::external_type_specification]
pub struct ExLiteral<'a>(RioLiteral<'a>);

#[verifier::external_type_specification]
pub struct ExSubject<'a>(RioSubject<'a>);

#[verifier::external_type_specification]
pub struct ExTerm<'a>(RioTerm<'a>);

#[verifier::external_type_specification]
pub struct ExTriple<'a>(RioTriple<'a>);

#[verifier::external_type_specification]
pub struct ExGraphName<'a>(RioGraphName<'a>);

#[verifier::external_type_specification]
pub struct ExQuad<'a>(RioQuad<'a>);

/// Whether the library's term stands for the engine's term. A quoted triple
/// has no counterpart.
pub open spec fn is_term_of(r: Term, t: RioTerm) -> bool {
    match t {
        RioTerm::NamedNode(n) => r matches Term::Iri(x) && x@ == n.iri@,
        RioTerm::BlankNode(b) => r matches Term::BlankNode(x) && x@ == b.id@,
        RioTerm::Literal(RioLiteral::Simple { value }) => r matches Term::SimpleLiteral(x)
            && x@ == value@,
        RioTerm::Literal(RioLiteral::LanguageTaggedString { value, language }) => r matches Term::LangLiteral(x, l)
            && x@ == value@ && l@ == language@,
        RioTerm::Literal(RioLiteral::Typed { value, datatype }) => r matches Term::TypedLiteral(x, d)
            && x@ == value@ && d@ == datatype.iri@,
        RioTerm::Triple(_) => false,
    }
}

/// Whether the library's term stands for the engine's subject.
pub open spec fn is_subject_of(r: Term, s: RioSubject) -> bool {
    match s {
        RioSubject::NamedNode(n) => r matches Term::Iri(x) && x@ == n.iri@,
        RioSubject::BlankNode(b) => r matches Term::BlankNode(x) && x@ == b.id@,
        RioSubject::Triple(_) => false,
    }
}

/// Whether the library's term stands for the engine's graph name.
pub open spec fn is_graph_name_of(r: Term, g: RioGraphName) -> bool {
    match g {
        RioGraphName::NamedNode(n) => r matches Term::Iri(x) && x@ == n.iri@,
        RioGraphName::BlankNode(b) => r matches Term::BlankNode(x) && x@ == b.id@,
    }
}

/// Whether a term of the engine's is a quoted triple.
pub open spec fn is_quoted(t: RioTerm) -> bool {
    t is Triple
}

/// Whether an engine's triple holds a quoted triple.
pub open spec fn triple_has_quoted(t: RioTriple) -> bool {
    t.subject is Triple || t.object is Triple
}

/// Whether the library's triple stands for the engine's triple.
pub open spec fn is_triple_of(r: Triple, t: RioTriple) -> bool {
    &&& is_subject_of(r.subject, t.subject)
    &&& r.predicate matches Term::Iri(x) && x@ == t.predicate.iri@
    &&& is_term_of(r.object, t.object)
}

/// Whether the library's quad stands for the engine's quad.
pub open spec fn is_quad_of(r: Quad, q: RioQuad) -> bool {
    &&& is_subject_of(r.subject, q.subject)
    &&& r.predicate matches Term::Iri(x) && x@ == q.predicate.iri@
    &&& is_term_of(r.object, q.object)
    &&& match (r.graph_name, q.graph_name) {
        (Some(a), Some(b)) => is_graph_name_of(a, b),
        (None, None) => true,
        _ => false,
    }
}

/// The library's term for an engine's term, if it has one.
pub fn term_from_rio(t: &RioTerm) -> (r: Option<Term>)
    ensures
        r matches Some(x) ==> is_term_of(x, *t),
        r is None <==> is_quoted(*t),
{
    match t {
        RioTerm::NamedNode(n) => Some(Term::Iri(owned(n.iri))),
        RioTerm::BlankNode(b) => Some(Term::BlankNode(owned(b.id))),
        RioTerm::Literal(RioLiteral::Simple { value }) => Some(Term::SimpleLiteral(owned(value))),
        RioTerm::Literal(RioLiteral::LanguageTaggedString { value, language }) => Some(
            Term::LangLiteral(owned(value), owned(language)),
        ),
        RioTerm::Literal(RioLiteral::Typed { value, datatype }) => Some(
            Term::TypedLiteral(owned(value), owned(datatype.iri)),
        ),
        RioTerm::Triple(_) => None,
    }
}

/// The library's term for an engine's subject, if it has one.
pub fn subject_from_rio(s: &RioSubject) -> (r: Option<Term>)
    ensures
        r matches Some(x) ==> is_subject_of(x, *s),
        r is None <==> s is Triple,
{
    match s {
        RioSubject::NamedNode(n) => Some(Term::Iri(owned(n.iri))),
        RioSubject::BlankNode(b) => Some(Term::BlankNode(owned(b.id))),
        RioSubject::Triple(_) => None,
    }
}

/// The library's term for an engine's graph name.
pub fn graph_name_from_rio(g: &RioGraphName) -> (r: Term)
    ensures
        is_graph_name_of(r, *g),
{
    match g {
        RioGraphName::NamedNode(n) => Term::Iri(owned(n.iri)),
        RioGraphName::BlankNode(b) => Term::BlankNode(owned(b.id)),
    }
}

/// The library's triple for an engine's triple; none where it holds a quoted
/// triple.
pub fn triple_from_rio(t: &RioTriple) -> (r: Option<Triple>)
    ensures
        r matches Some(x) ==> is_triple_of(x, *t),
        r is None <==> triple_has_quoted(*t),
{
    let s = subject_from_rio(&t.subject);
    let o = term_from_rio(&t.object);
    match (s, o) {
        (Some(s), Some(o)) => Some(
            Triple { subject: s, predicate: Term::Iri(owned(t.predicate.iri)), object: o },
        ),
        _ => None,
    }
}

/// The library's quad for an engine's quad; none where it holds a quoted
/// triple.
pub fn quad_from_rio(q: &RioQuad) -> (r: Option<Quad>)
    ensures
        r matches Some(x) ==> is_quad_of(x, *q),
        r is None <==> (q.subject is Triple || q.object is Triple),
{
    let s = subject_from_rio(&q.subject);
    let o = term_from_rio(&q.object);
    let g = match &q.graph_name {
        Some(g) => Some(graph_name_from_rio(g)),
        None => None,
    };
    match (s, o) {
        (Some(s), Some(o)) => Some(
            Quad {
                subject: s,
                predicate: Term::Iri(owned(q.predicate.iri)),
                object: o,
                graph_name: g,
            },
        ),
        _ => None,
    }
}

/// The engine's term for the library's term, borrowing its text.
pub fn rio_term<'a>(t: &'a Term) -> (r: RioTerm<'a>)
    ensures
        is_term_of(*t, r),
{
    match t {
        Term::Iri(x) => RioTerm::NamedNode(RioNamedNode { iri: x.as_str() }),
        Term::BlankNode(x) => RioTerm::BlankNode(RioBlankNode { id: x.as_str() }),
        Term::SimpleLiteral(x) => RioTerm::Literal(RioLiteral::Simple { value: x.as_str() }),
        Term::LangLiteral(x, l) => RioTerm::Literal(
            RioLiteral::LanguageTaggedString { value: x.as_str(), language: l.as_str() },
        ),
        Term::TypedLiteral(x, d) => RioTerm::Literal(
            RioLiteral::Typed { value: x.as_str(), datatype: RioNamedNode { iri: d.as_str() } },
        ),
    }
}

} // verus!
