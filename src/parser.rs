//! Parsers whose syntax is chosen at run time, and their factories.
use vstd::prelude::*;

use crate::engine::InnerParser;
use crate::source::{DynSynQuadSource, DynSynTripleSource};
use crate::statement::{copied_opt, Term};
use crate::syntax::{has_parser, takes_base, RdfSyntax, UnKnownSyntaxError};

verus! {

/// The base IRI that a parser for `syntax_` keeps out of the one it was given.
pub open spec fn kept_base(syntax_: RdfSyntax, base_iri: Option<String>) -> Option<Seq<char>> {
    if takes_base(syntax_) {
        match base_iri {
            Some(b) => Some(b@),
            None => None,
        }
    } else {
        None
    }
}

/// A quad parser for a syntax chosen at run time. Documents of a triple
/// syntax yield quads of the configured graph.
#[derive(Debug)]
pub struct DynSynQuadParser {
    inner_parser: InnerParser,
    triple_source_adapted_graph_iri: Option<Term>,
}

impl DynSynQuadParser {
    /// The syntax the parser reads.
    pub closed spec fn syntax(&self) -> RdfSyntax {
        self.inner_parser.syntax()
    }

    /// The base IRI the parser hands to its engine, which resolves relative
    /// IRIs against it where it parses as an IRI and ignores it otherwise.
    pub closed spec fn base(&self) -> Option<Seq<char>> {
        self.inner_parser.base()
    }

    /// The graph that statements of a triple syntax are put in.
    pub closed spec fn graph(&self) -> Option<Term> {
        self.triple_source_adapted_graph_iri
    }

    /// A parser for `syntax_`, or an error where no engine implements it.
    pub fn try_new(
        syntax_: RdfSyntax,
        base_iri: Option<String>,
        triple_source_adapted_graph_iri: Option<Term>,
    ) -> (r: Result<DynSynQuadParser, UnKnownSyntaxError>)
        ensures
            r is Ok <==> has_parser(syntax_),
            r matches Ok(p) ==> p.syntax() == syntax_ && p.base() == kept_base(syntax_, base_iri)
                && p.graph() == triple_source_adapted_graph_iri,
            r matches Err(e) ==> e.0 == syntax_,
    {
        let inner_parser = InnerParser::try_new(syntax_, base_iri)?;
        Ok(DynSynQuadParser { inner_parser, triple_source_adapted_graph_iri })
    }

    /// A lazy source of the document's quads. Nothing is read yet.
    pub fn parse(&self, data: Vec<u8>) -> (r: DynSynQuadSource)
        ensures
            r.syntax() == self.syntax(),
            r.inner().document() == data@,
            r.inner().base() == self.base(),
            r.inner().steps_taken() == 0,
            r.graph() == self.graph(),
            !r.is_halted(),
    {
        let g = copied_opt(&self.triple_source_adapted_graph_iri);
        DynSynQuadSource::new_for(self.inner_parser.parse(data), g)
    }
}

/// A triple parser for a syntax chosen at run time. Documents of a quad
/// syntax yield the triples of the configured graph only.
#[derive(Debug)]
pub struct DynSynTripleParser {
    inner_parser: InnerParser,
    quad_source_adapted_graph_iri: Option<Term>,
}

impl DynSynTripleParser {
    /// The syntax the parser reads.
    pub closed spec fn syntax(&self) -> RdfSyntax {
        self.inner_parser.syntax()
    }

    /// The base IRI the parser hands to its engine, which resolves relative
    /// IRIs against it where it parses as an IRI and ignores it otherwise.
    pub closed spec fn base(&self) -> Option<Seq<char>> {
        self.inner_parser.base()
    }

    /// The graph whose statements a quad syntax's document yields.
    pub closed spec fn graph(&self) -> Option<Term> {
        self.quad_source_adapted_graph_iri
    }

    /// A parser for `syntax_`, or an error where no engine implements it.
    pub fn try_new(
        syntax_: RdfSyntax,
        base_iri: Option<String>,
        quad_source_adapted_graph_iri: Option<Term>,
    ) -> (r: Result<DynSynTripleParser, UnKnownSyntaxError>)
        ensures
            r is Ok <==> has_parser(syntax_),
            r matches Ok(p) ==> p.syntax() == syntax_ && p.base() == kept_base(syntax_, base_iri)
                && p.graph() == quad_source_adapted_graph_iri,
            r matches Err(e) ==> e.0 == syntax_,
    {
        let inner_parser = InnerParser::try_new(syntax_, base_iri)?;
        Ok(DynSynTripleParser { inner_parser, quad_source_adapted_graph_iri })
    }

    /// A lazy source of the document's triples. Nothing is read yet.
    pub fn parse(&self, data: Vec<u8>) -> (r: DynSynTripleSource)
        ensures
            r.syntax() == self.syntax(),
            r.inner().document() == data@,
            r.inner().base() == self.base(),
            r.inner().steps_taken() == 0,
            r.graph() == self.graph(),
            !r.is_halted(),
    {
        let g = copied_opt(&self.quad_source_adapted_graph_iri);
        DynSynTripleSource::new_for(self.inner_parser.parse(data), g)
    }
}

/// Makes quad parsers.
pub struct DynSynQuadParserFactory {}

impl DynSynQuadParserFactory {
    pub fn new() -> (r: DynSynQuadParserFactory) {
        DynSynQuadParserFactory {  }
    }

    /// A quad parser for `syntax_`, or an error where no engine implements it.
    pub fn try_new_parser(
        &self,
        syntax_: RdfSyntax,
        base_iri: Option<String>,
        triple_source_adapted_graph_iri: Option<Term>,
    ) -> (r: Result<DynSynQuadParser, UnKnownSyntaxError>)
        ensures
            r is Ok <==> has_parser(syntax_),
            r matches Ok(p) ==> p.syntax() == syntax_ && p.base() == kept_base(syntax_, base_iri)
                && p.graph() == triple_source_adapted_graph_iri,
            r matches Err(e) ==> e.0 == syntax_,
    {
        DynSynQuadParser::try_new(syntax_, base_iri, triple_source_adapted_graph_iri)
    }
}

/// Makes triple parsers.
pub struct DynSynTripleParserFactory {}

impl DynSynTripleParserFactory {
    pub fn new() -> (r: DynSynTripleParserFactory) {
        DynSynTripleParserFactory {  }
    }

    /// A triple parser for `syntax_`, or an error where no engine implements it.
    pub fn try_new_parser(
        &self,
        syntax_: RdfSyntax,
        base_iri: Option<String>,
        quad_source_adapted_graph_iri: Option<Term>,
    ) -> (r: Result<DynSynTripleParser, UnKnownSyntaxError>)
        ensures
            r is Ok <==> has_parser(syntax_),
            r matches Ok(p) ==> p.syntax() == syntax_ && p.base() == kept_base(syntax_, base_iri)
                && p.graph() == quad_source_adapted_graph_iri,
            r matches Err(e) ==> e.0 == syntax_,
    {
        DynSynTripleParser::try_new(syntax_, base_iri, quad_source_adapted_graph_iri)
    }
}

} // verus!
