use std::io::Cursor;

use sophia_api::dataset::isomorphic_datasets;
use sophia_api::graph::isomorphic_graphs;
use sophia_api::parser::{QuadParser, TripleParser as SophiaTripleParser};
use sophia_api::quad::stream::QuadSource;
use sophia_api::triple::stream::TripleSource;
use sophia_inmem::dataset::FastDataset;
use sophia_inmem::graph::FastGraph;
use sophia_term::BoxTerm;

use rio_api::parser::{QuadsParser, TriplesParser};
use rdf_dynsyn::parser::{DynSynQuadParserFactory, DynSynTripleParserFactory};
use rdf_dynsyn::rio_model::{quad_from_rio, triple_from_rio};
use rdf_dynsyn::source::{DynSynQuadSource, DynSynTripleSource};
use rdf_dynsyn::statement::{Quad, Term, Triple};
use rdf_dynsyn::syntax::RdfSyntax;

const DATASET_STR_NQUADS: &str = r#"
    <http://localhost/ex#me> <http://example.org/ns/knows> _:b1.
    _:b1 <http://www.w3.org/1999/02/22-rdf-syntax-ns#type> <http://example.org/ns/Person> <tag:g1>.
    _:b1 <http://example.org/ns/name> "Alice" <tag:g1>.
"#;

const DATASET_STR_TRIG: &str = r#"
    @prefix : <http://example.org/ns/> .
    <#g1> {
        <#me> :knows _:alice.
    }
    <#g2> {
        _:alice a :Person ; :name "Alice".
    }
"#;

const GRAPH_STR_TURTLE: &str = r#"
    @prefix : <http://example.org/ns/> .
    <#me> :knows [ a :Person ; :name "Alice" ].
"#;

const GRAPH_STR_NTRIPLES: &str = r#"
    <http://localhost/ex#me> <http://example.org/ns/knows> _:b1.
    _:b1 <http://www.w3.org/1999/02/22-rdf-syntax-ns#type> <http://example.org/ns/Person>.
    _:b1 <http://example.org/ns/name> "Alice".
"#;

const GRAPH_STR_RDF_XML: &str = r#"<?xml version="1.0" encoding="utf-8"?>
<rdf:RDF xmlns:rdf="http://www.w3.org/1999/02/22-rdf-syntax-ns#"
            xmlns="http://example.org/ns/">
    <rdf:Description rdf:about="http://localhost/ex#me">
    <knows>
        <Person>
        <name>Alice</name>
        </Person>
    </knows>
    </rdf:Description>
</rdf:RDF>
"#;

const BASE_IRI1: &str = "http://localhost/ex";
const G1_IRI: &str = "http://localhost/ex#g1";
const G2_IRI: &str = "http://localhost/ex#g2";

fn bytes(doc: &str) -> Vec<u8> {
    doc.as_bytes().to_vec()
}

fn base() -> Option<oxiri::Iri<String>> {
    oxiri::Iri::parse(BASE_IRI1.to_string()).ok()
}

fn drain_triples(mut src: DynSynTripleSource) -> Vec<Triple> {
    let mut out = Vec::new();
    loop {
        match src.try_for_some_triple() {
            Ok(Some(ts)) => out.extend(ts),
            Ok(None) => return out,
            Err(e) => panic!("parse error: {}", e.message()),
        }
    }
}

fn drain_quads(mut src: DynSynQuadSource) -> Vec<Quad> {
    let mut out = Vec::new();
    loop {
        match src.try_for_some_quad() {
            Ok(Some(qs)) => out.extend(qs),
            Ok(None) => return out,
            Err(e) => panic!("parse error: {}", e.message()),
        }
    }
}

fn direct_triples<P: TriplesParser>(mut p: P) -> Vec<Triple>
where
    P::Error: std::fmt::Debug,
{
    let mut out = Vec::new();
    p.parse_all(&mut |t| -> Result<(), P::Error> {
        out.push(triple_from_rio(&t).unwrap());
        Ok(())
    })
    .unwrap();
    out
}

fn direct_quads<P: QuadsParser>(mut p: P) -> Vec<Quad>
where
    P::Error: std::fmt::Debug,
{
    let mut out = Vec::new();
    p.parse_all(&mut |q| -> Result<(), P::Error> {
        out.push(quad_from_rio(&q).unwrap());
        Ok(())
    })
    .unwrap();
    out
}


fn boxed(t: &Term) -> BoxTerm {
    match t {
        Term::Iri(x) => BoxTerm::new_iri(x.as_str()).unwrap(),
        Term::BlankNode(x) => BoxTerm::new_bnode(x.as_str()).unwrap(),
        Term::SimpleLiteral(x) => BoxTerm::new_literal_dt(
            x.as_str(),
            BoxTerm::new_iri("http://www.w3.org/2001/XMLSchema#string").unwrap(),
        )
        .unwrap(),
        Term::LangLiteral(x, l) => BoxTerm::new_literal_lang(x.as_str(), l.as_str()).unwrap(),
        Term::TypedLiteral(x, d) => {
            BoxTerm::new_literal_dt(x.as_str(), BoxTerm::new_iri(d.as_str()).unwrap()).unwrap()
        }
    }
}

fn boxed_graph(ts: &[Triple]) -> Vec<[BoxTerm; 3]> {
    ts.iter().map(|t| [boxed(&t.subject), boxed(&t.predicate), boxed(&t.object)]).collect()
}

fn boxed_dataset(qs: &[Quad]) -> Vec<([BoxTerm; 3], Option<BoxTerm>)> {
    qs.iter()
        .map(|q| ([boxed(&q.subject), boxed(&q.predicate), boxed(&q.object)], q.graph_name.as_ref().map(boxed)))
        .collect()
}

fn sophia_graph<P: SophiaTripleParser<Cursor<Vec<u8>>>>(p: P, doc: &str) -> FastGraph {
    let mut g = FastGraph::new();
    p.parse(Cursor::new(bytes(doc))).add_to_graph(&mut g).unwrap();
    g
}

fn sophia_dataset<P: QuadParser<Cursor<Vec<u8>>>>(p: P, doc: &str) -> FastDataset {
    let mut d = FastDataset::new();
    p.parse(Cursor::new(bytes(doc))).add_to_dataset(&mut d).unwrap();
    d
}

fn shown<T: std::fmt::Debug>(v: &[T]) -> Vec<String> {
    let mut s: Vec<String> = v.iter().map(|x| format!("{:?}", x)).collect();
    s.sort();
    s
}

fn iri(s: &str) -> Term {
    Term::Iri(s.to_string())
}

fn as_triple(q: &Quad) -> Triple {
    Triple { subject: q.subject.clone(), predicate: q.predicate.clone(), object: q.object.clone() }
}

#[test]
fn correctly_parses_nquads() {
    let parser = DynSynQuadParserFactory::new()
        .try_new_parser(RdfSyntax::NQuads, Some(BASE_IRI1.into()), None)
        .unwrap();
    let ours = drain_quads(parser.parse(bytes(DATASET_STR_NQUADS)));
    let theirs = direct_quads(rio_turtle::NQuadsParser::new(Cursor::new(bytes(DATASET_STR_NQUADS))));
    assert_eq!(ours.len(), 3);
    assert_eq!(shown(&ours), shown(&theirs));
    let reference = sophia_dataset(sophia_turtle::parser::nq::NQuadsParser {}, DATASET_STR_NQUADS);
    assert!(isomorphic_datasets(&reference, &boxed_dataset(&ours)).unwrap());
}

#[test]
fn correctly_parses_trig() {
    let parser = DynSynQuadParserFactory::new()
        .try_new_parser(RdfSyntax::TriG, Some(BASE_IRI1.into()), None)
        .unwrap();
    let ours = drain_quads(parser.parse(bytes(DATASET_STR_TRIG)));
    let theirs =
        direct_quads(rio_turtle::TriGParser::new(Cursor::new(bytes(DATASET_STR_TRIG)), base()));
    assert_eq!(ours.len(), 3);
    assert_eq!(shown(&ours), shown(&theirs));
    let reference = sophia_dataset(
        sophia_turtle::parser::trig::TriGParser { base: Some(BASE_IRI1.into()) },
        DATASET_STR_TRIG,
    );
    assert!(isomorphic_datasets(&reference, &boxed_dataset(&ours)).unwrap());
}

#[test]
fn correctly_parses_turtle() {
    let parser = DynSynTripleParserFactory::new()
        .try_new_parser(RdfSyntax::Turtle, Some(BASE_IRI1.into()), None)
        .unwrap();
    let ours = drain_triples(parser.parse(bytes(GRAPH_STR_TURTLE)));
    let theirs =
        direct_triples(rio_turtle::TurtleParser::new(Cursor::new(bytes(GRAPH_STR_TURTLE)), base()));
    assert_eq!(ours.len(), 3);
    assert_eq!(shown(&ours), shown(&theirs));
    let reference = sophia_graph(sophia_turtle::parser::turtle::TurtleParser { base: Some(BASE_IRI1.into()) }, GRAPH_STR_TURTLE);
    assert!(isomorphic_graphs(&reference, &boxed_graph(&ours)).unwrap());
}

#[test]
fn correctly_parses_ntriples() {
    let parser = DynSynTripleParserFactory::new()
        .try_new_parser(RdfSyntax::NTriples, Some(BASE_IRI1.into()), None)
        .unwrap();
    let ours = drain_triples(parser.parse(bytes(GRAPH_STR_NTRIPLES)));
    let theirs = direct_triples(rio_turtle::NTriplesParser::new(Cursor::new(bytes(GRAPH_STR_NTRIPLES))));
    assert_eq!(ours.len(), 3);
    assert_eq!(shown(&ours), shown(&theirs));
    let reference = sophia_graph(sophia_turtle::parser::nt::NTriplesParser {}, GRAPH_STR_NTRIPLES);
    assert!(isomorphic_graphs(&reference, &boxed_graph(&ours)).unwrap());
}

#[test]
fn correctly_parses_rdf_xml() {
    let parser = DynSynTripleParserFactory::new()
        .try_new_parser(RdfSyntax::RdfXml, Some(BASE_IRI1.into()), None)
        .unwrap();
    let ours = drain_triples(parser.parse(bytes(GRAPH_STR_RDF_XML)));
    let theirs =
        direct_triples(rio_xml::RdfXmlParser::new(Cursor::new(bytes(GRAPH_STR_RDF_XML)), base()));
    assert_eq!(ours.len(), 3);
    assert_eq!(shown(&ours), shown(&theirs));
    let reference = sophia_graph(sophia_xml::parser::RdfXmlParser { base: Some(BASE_IRI1.into()) }, GRAPH_STR_RDF_XML);
    assert!(isomorphic_graphs(&reference, &boxed_graph(&ours)).unwrap());
}

#[test]
fn turtle_as_quads_carries_the_configured_graph() {
    let as_triples = drain_triples(
        DynSynTripleParserFactory::new()
            .try_new_parser(RdfSyntax::Turtle, Some(BASE_IRI1.into()), None)
            .unwrap()
            .parse(bytes(GRAPH_STR_TURTLE)),
    );
    for g in [Some(iri(G1_IRI)), Some(iri(G2_IRI)), None] {
        let quads = drain_quads(
            DynSynQuadParserFactory::new()
                .try_new_parser(RdfSyntax::Turtle, Some(BASE_IRI1.into()), g.clone())
                .unwrap()
                .parse(bytes(GRAPH_STR_TURTLE)),
        );
        assert_eq!(quads.len(), as_triples.len());
        for (q, t) in quads.iter().zip(as_triples.iter()) {
            assert_eq!(format!("{:?}", q.graph_name), format!("{:?}", g));
            assert_eq!(format!("{:?}", as_triple(q)), format!("{:?}", t));
        }
    }
}

#[test]
fn trig_as_triples_keeps_only_the_chosen_graph() {
    let quads = drain_quads(
        DynSynQuadParserFactory::new()
            .try_new_parser(RdfSyntax::TriG, Some(BASE_IRI1.into()), None)
            .unwrap()
            .parse(bytes(DATASET_STR_TRIG)),
    );
    for (g, expected) in [(Some(iri(G1_IRI)), 1usize), (Some(iri(G2_IRI)), 2), (None, 0)] {
        let triples = drain_triples(
            DynSynTripleParserFactory::new()
                .try_new_parser(RdfSyntax::TriG, Some(BASE_IRI1.into()), g.clone())
                .unwrap()
                .parse(bytes(DATASET_STR_TRIG)),
        );
        let filtered: Vec<Triple> = quads
            .iter()
            .filter(|q| format!("{:?}", q.graph_name) == format!("{:?}", g))
            .map(as_triple)
            .collect();
        assert_eq!(triples.len(), expected);
        assert_eq!(shown(&triples), shown(&filtered));
    }
}

#[test]
fn nquads_as_triples_of_default_graph() {
    let triples = drain_triples(
        DynSynTripleParserFactory::new()
            .try_new_parser(RdfSyntax::NQuads, None, None)
            .unwrap()
            .parse(bytes(DATASET_STR_NQUADS)),
    );
    assert_eq!(triples.len(), 1);
    assert_eq!(format!("{:?}", triples[0].subject), format!("{:?}", iri("http://localhost/ex#me")));
}

#[test]
fn unsupported_syntaxes_have_no_parser() {
    for s in [RdfSyntax::JsonLd, RdfSyntax::HtmlRdfa, RdfSyntax::N3, RdfSyntax::Owl2Xml, RdfSyntax::XhtmlRdfa, RdfSyntax::Owl2Manchester] {
        let e = DynSynQuadParserFactory::new().try_new_parser(s, None, None).unwrap_err();
        assert_eq!(e.0, s);
        assert!(DynSynTripleParserFactory::new().try_new_parser(s, None, None).is_err());
    }
}

#[test]
fn supported_syntaxes_have_a_parser() {
    for s in [RdfSyntax::NQuads, RdfSyntax::NTriples, RdfSyntax::RdfXml, RdfSyntax::TriG, RdfSyntax::Turtle] {
        assert!(DynSynQuadParserFactory::new().try_new_parser(s, None, None).is_ok());
        assert!(DynSynTripleParserFactory::new().try_new_parser(s, None, None).is_ok());
    }
}

#[test]
fn invalid_documents_stop_at_a_source_error() {
    let docs = [
        (RdfSyntax::Turtle, "@prefix : <http://e/> . :a :b ."),
        (RdfSyntax::NTriples, "<http://e/a> <http://e/b> <http://e/c> .\n<http://e/a> \"x\" ."),
        (RdfSyntax::NQuads, "<http://e/a> <http://e/b> ."),
        (RdfSyntax::TriG, "<http://e/g> { <http://e/a> <http://e/b> "),
        (RdfSyntax::RdfXml, "<rdf:RDF xmlns:rdf=\"http://www.w3.org/1999/02/22-rdf-syntax-ns#\"><rdf:Description rdf:about=\"http://e/a\"><p:q xmlns:p=\"http://e/\">x</p:r></rdf:Description></rdf:RDF>"),
    ];
    for (s, doc) in docs {
        let mut src = DynSynTripleParserFactory::new()
            .try_new_parser(s, None, None)
            .unwrap()
            .parse(bytes(doc));
        let mut failed = false;
        for _ in 0..100 {
            match src.try_for_some_triple() {
                Ok(Some(_)) => {}
                Ok(None) => break,
                Err(e) => {
                    assert!(!e.message().is_empty());
                    failed = true;
                    break;
                }
            }
        }
        assert!(failed, "no error for {:?}", s);
        assert!(matches!(src.try_for_some_triple(), Ok(None)));
        assert!(matches!(src.try_for_some_triple(), Ok(None)));
    }
}

#[test]
fn quoted_triples_are_refused() {
    let doc = "<< <http://e/a> <http://e/b> <http://e/c> >> <http://e/d> <http://e/e> .";
    let mut src = DynSynTripleParserFactory::new()
        .try_new_parser(RdfSyntax::Turtle, None, None)
        .unwrap()
        .parse(bytes(doc));
    let mut seen_error = false;
    for _ in 0..10 {
        match src.try_for_some_triple() {
            Ok(Some(_)) => panic!("a statement quoting a triple was forwarded"),
            Ok(None) => break,
            Err(e) => {
                assert!(matches!(e.0, rdf_dynsyn::errors::InnerParseError::QuotedTriple));
                seen_error = true;
                break;
            }
        }
    }
    assert!(seen_error);
}

#[test]
fn every_batch_forwards_a_statement() {
    for g in [Some(iri(G1_IRI)), Some(iri(G2_IRI)), None, Some(iri("http://localhost/ex#g3"))] {
        let mut src = DynSynTripleParserFactory::new()
            .try_new_parser(RdfSyntax::TriG, Some(BASE_IRI1.into()), g)
            .unwrap()
            .parse(bytes(DATASET_STR_TRIG));
        let mut calls = 0;
        while let Some(ts) = src.try_for_some_triple().unwrap() {
            assert!(!ts.is_empty());
            calls += 1;
            assert!(calls < 10);
        }
    }
    let mut src = DynSynQuadParserFactory::new()
        .try_new_parser(RdfSyntax::Turtle, Some(BASE_IRI1.into()), None)
        .unwrap()
        .parse(bytes(GRAPH_STR_TURTLE));
    let first = src.try_for_some_quad().unwrap().unwrap();
    assert!(!first.is_empty());
}

#[test]
fn a_document_of_directives_only_ends_at_once() {
    let doc = "@prefix : <http://example.org/ns/> .\n@base <http://e/> .\n";
    let mut src = DynSynTripleParserFactory::new()
        .try_new_parser(RdfSyntax::Turtle, None, None)
        .unwrap()
        .parse(bytes(doc));
    assert!(matches!(src.try_for_some_triple(), Ok(None)));
    let mut src = DynSynTripleParserFactory::new()
        .try_new_parser(RdfSyntax::NQuads, None, Some(iri("http://e/other")))
        .unwrap()
        .parse(bytes(DATASET_STR_NQUADS));
    assert!(matches!(src.try_for_some_triple(), Ok(None)));
}

#[test]
fn quoted_triple_message() {
    let e = rdf_dynsyn::errors::DynSynParseError(rdf_dynsyn::errors::InnerParseError::QuotedTriple);
    assert_eq!(e.message(), "quoted triples are not supported");
}
