//! The known RDF concrete syntaxes and which of them have an engine.
use vstd::prelude::*;

verus! {

/// A concrete RDF serialization grammar.
#[derive(Clone, Copy, Debug, PartialEq, Eq, Hash, Structural)]
pub enum RdfSyntax {
    HtmlRdfa,
    JsonLd,
    N3,
    NQuads,
    NTriples,
    Owl2Manchester,
    Owl2Xml,
    RdfXml,
    TriG,
    Turtle,
    XhtmlRdfa,
}

/// Whether some parsing engine implements the syntax.
pub open spec fn has_parser(s: RdfSyntax) -> bool {
    match s {
        RdfSyntax::NQuads | RdfSyntax::TriG | RdfSyntax::NTriples | RdfSyntax::Turtle
        | RdfSyntax::RdfXml => true,
        _ => false,
    }
}

/// Whether the syntax's grammar resolves relative IRIs against a base.
pub open spec fn takes_base(s: RdfSyntax) -> bool {
    s == RdfSyntax::TriG || s == RdfSyntax::Turtle || s == RdfSyntax::RdfXml
}

/// Whether the syntax can state the graph a statement belongs to.
pub open spec fn is_quad_capable(s: RdfSyntax) -> bool {
    s == RdfSyntax::NQuads || s == RdfSyntax::TriG
}

/// Whether some engine writes quads in the syntax.
pub open spec fn has_quad_serializer(s: RdfSyntax) -> bool {
    s == RdfSyntax::NQuads || s == RdfSyntax::TriG
}

/// Whether some engine writes triples in the syntax.
pub open spec fn has_triple_serializer(s: RdfSyntax) -> bool {
    s == RdfSyntax::NTriples || s == RdfSyntax::Turtle || s == RdfSyntax::RdfXml
}

impl RdfSyntax {
    /// Whether the syntax can state the graph a statement belongs to.
    pub fn is_quad_capable(&self) -> (r: bool)
        ensures
            r == is_quad_capable(*self),
    {
        match self {
            RdfSyntax::NQuads | RdfSyntax::TriG => true,
            _ => false,
        }
    }
}

/// The requested syntax has no engine behind it.
#[derive(Clone, Copy, Debug, PartialEq, Eq, Structural)]
pub struct UnKnownSyntaxError(pub RdfSyntax);

} // verus!
