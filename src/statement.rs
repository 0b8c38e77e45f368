//! The statement model that every engine's output is brought to.
use vstd::prelude::*;

verus! {

/// An RDF term.
#[derive(Clone, Debug)]
pub enum Term {
    /// A node named by an IRI.
    Iri(String),
    /// A blank node, by its local identifier.
    BlankNode(String),
    /// A literal with no language tag and the default datatype.
    SimpleLiteral(String),
    /// A literal with a lexical form and a language tag.
    LangLiteral(String, String),
    /// A literal with a lexical form and a datatype IRI.
    TypedLiteral(String, String),
}

/// The value of a term: its kind and its text.
pub enum TermView {
    Iri(Seq<char>),
    BlankNode(Seq<char>),
    SimpleLiteral(Seq<char>),
    LangLiteral(Seq<char>, Seq<char>),
    TypedLiteral(Seq<char>, Seq<char>),
}

impl View for Term {
    type V = TermView;

    open spec fn view(&self) -> TermView {
        match self {
            Term::Iri(x) => TermView::Iri(x@),
            Term::BlankNode(x) => TermView::BlankNode(x@),
            Term::SimpleLiteral(x) => TermView::SimpleLiteral(x@),
            Term::LangLiteral(x, l) => TermView::LangLiteral(x@, l@),
            Term::TypedLiteral(x, d) => TermView::TypedLiteral(x@, d@),
        }
    }
}

/// The value of a triple.
pub type TripleView = (TermView, TermView, TermView);

/// The value of a quad.
pub type QuadView = (TermView, TermView, TermView, Option<TermView>);

/// The value of an optional graph name.
pub open spec fn graph_view(g: Option<Term>) -> Option<TermView> {
    match g {
        Some(t) => Some(t@),
        None => None,
    }
}

/// Whether two terms denote the same value: same kind and the same text in
/// each part.
pub open spec fn same_term(a: Term, b: Term) -> bool {
    match (a, b) {
        (Term::Iri(x), Term::Iri(y)) => x@ == y@,
        (Term::BlankNode(x), Term::BlankNode(y)) => x@ == y@,
        (Term::SimpleLiteral(x), Term::SimpleLiteral(y)) => x@ == y@,
        (Term::LangLiteral(x, l), Term::LangLiteral(y, m)) => x@ == y@ && l@ == m@,
        (Term::TypedLiteral(x, d), Term::TypedLiteral(y, e)) => x@ == y@ && d@ == e@,
        _ => false,
    }
}

/// Two terms denote the same value exactly when their views are equal.
pub proof fn lemma_same_term_view(a: Term, b: Term)
    ensures
        same_term(a, b) <==> a@ == b@,
{
}

/// Whether two optional graph names denote the same graph; `None` is the
/// default graph.
pub open spec fn same_graph(a: Option<Term>, b: Option<Term>) -> bool {
    match (a, b) {
        (Some(x), Some(y)) => same_term(x, y),
        (None, None) => true,
        _ => false,
    }
}

impl Term {
    /// A copy of the term.
    pub fn copied(&self) -> (r: Term)
        ensures
            r == *self,
    {
        match self {
            Term::Iri(x) => Term::Iri(x.clone()),
            Term::BlankNode(x) => Term::BlankNode(x.clone()),
            Term::SimpleLiteral(x) => Term::SimpleLiteral(x.clone()),
            Term::LangLiteral(x, l) => Term::LangLiteral(x.clone(), l.clone()),
            Term::TypedLiteral(x, d) => Term::TypedLiteral(x.clone(), d.clone()),
        }
    }
}

/// Compares two terms by value.
pub fn term_eq(a: &Term, b: &Term) -> (r: bool)
    ensures
        r == same_term(*a, *b),
{
    match (a, b) {
        (Term::Iri(x), Term::Iri(y)) => x.eq(y),
        (Term::BlankNode(x), Term::BlankNode(y)) => x.eq(y),
        (Term::SimpleLiteral(x), Term::SimpleLiteral(y)) => x.eq(y),
        (Term::LangLiteral(x, l), Term::LangLiteral(y, m)) => x.eq(y) && l.eq(m),
        (Term::TypedLiteral(x, d), Term::TypedLiteral(y, e)) => x.eq(y) && d.eq(e),
        _ => false,
    }
}

/// Compares two optional graph names by value.
pub fn graph_eq(a: &Option<Term>, b: &Option<Term>) -> (r: bool)
    ensures
        r == same_graph(*a, *b),
{
    match (a, b) {
        (Some(x), Some(y)) => term_eq(x, y),
        (None, None) => true,
        _ => false,
    }
}

/// Copies an optional term.
pub fn copied_opt(t: &Option<Term>) -> (r: Option<Term>)
    ensures
        r == *t,
{
    match t {
        Some(x) => Some(x.copied()),
        None => None,
    }
}

/// A statement without a graph component.
#[derive(Clone, Debug)]
pub struct Triple {
    pub subject: Term,
    pub predicate: Term,
    pub object: Term,
}

/// A statement with an optional graph name; `None` is the default graph.
#[derive(Clone, Debug)]
pub struct Quad {
    pub subject: Term,
    pub predicate: Term,
    pub object: Term,
    pub graph_name: Option<Term>,
}

impl View for Triple {
    type V = TripleView;

    open spec fn view(&self) -> TripleView {
        (self.subject@, self.predicate@, self.object@)
    }
}

impl View for Quad {
    type V = QuadView;

    open spec fn view(&self) -> QuadView {
        (self.subject@, self.predicate@, self.object@, graph_view(self.graph_name))
    }
}

impl Triple {
    /// A copy of the triple.
    pub fn copied(&self) -> (r: Triple)
        ensures
            r == *self,
    {
        Triple {
            subject: self.subject.copied(),
            predicate: self.predicate.copied(),
            object: self.object.copied(),
        }
    }
}

impl Quad {
    /// A copy of the quad.
    pub fn copied(&self) -> (r: Quad)
        ensures
            r == *self,
    {
        Quad {
            subject: self.subject.copied(),
            predicate: self.predicate.copied(),
            object: self.object.copied(),
            graph_name: copied_opt(&self.graph_name),
        }
    }
}

} // verus!
