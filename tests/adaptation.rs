use rdf_dynsyn::adapter::{adapt_quads_to_triples, adapt_triples_to_quads};
use rdf_dynsyn::engine::{quads_step, triples_step, NativeStatements};
use rdf_dynsyn::errors::{adapt_quads_stream_error, adapt_stream_result, InnerParseError, StreamError};
use rdf_dynsyn::source::{quads_of_step, triples_of_step};
use rdf_dynsyn::statement::{graph_eq, term_eq, Quad, Term, Triple};

fn iri(s: &str) -> Term {
    Term::Iri(s.to_string())
}

fn triple(s: &str, o: &str) -> Triple {
    Triple { subject: iri(s), predicate: iri("http://e/p"), object: Term::SimpleLiteral(o.to_string()) }
}

fn quad(s: &str, o: &str, g: Option<Term>) -> Quad {
    let t = triple(s, o);
    Quad { subject: t.subject, predicate: t.predicate, object: t.object, graph_name: g }
}

fn show<T: std::fmt::Debug>(v: &T) -> String {
    format!("{:?}", v)
}

#[test]
fn triples_become_quads_of_the_graph() {
    let ts = vec![triple("http://e/a", "1"), triple("http://e/b", "2")];
    let g = Some(iri("http://e/g"));
    let qs = adapt_triples_to_quads(&ts, &g);
    assert_eq!(show(&qs), show(&vec![quad("http://e/a", "1", g.clone()), quad("http://e/b", "2", g.clone())]));
    let qs = adapt_triples_to_quads(&ts, &None);
    assert!(qs.iter().all(|q| q.graph_name.is_none()));
    assert_eq!(qs.len(), 2);
}

#[test]
fn quads_of_other_graphs_are_dropped() {
    let g1 = Some(iri("http://e/g1"));
    let g2 = Some(iri("http://e/g2"));
    let qs = vec![
        quad("http://e/a", "1", g1.clone()),
        quad("http://e/b", "2", g2.clone()),
        quad("http://e/c", "3", None),
        quad("http://e/d", "4", g1.clone()),
        quad("http://e/e", "5", Some(Term::BlankNode("http://e/g1".to_string()))),
    ];
    assert_eq!(
        show(&adapt_quads_to_triples(&qs, &g1)),
        show(&vec![triple("http://e/a", "1"), triple("http://e/d", "4")])
    );
    assert_eq!(show(&adapt_quads_to_triples(&qs, &g2)), show(&vec![triple("http://e/b", "2")]));
    assert_eq!(show(&adapt_quads_to_triples(&qs, &None)), show(&vec![triple("http://e/c", "3")]));
    assert!(adapt_quads_to_triples(&qs, &Some(iri("http://e/g3"))).is_empty());
    assert!(adapt_quads_to_triples(&vec![], &g1).is_empty());
}

#[test]
fn term_equality_is_by_value() {
    assert!(term_eq(&iri("http://e/a"), &iri("http://e/a")));
    assert!(!term_eq(&iri("http://e/a"), &iri("http://e/b")));
    assert!(!term_eq(&iri("x"), &Term::BlankNode("x".to_string())));
    assert!(term_eq(
        &Term::LangLiteral("x".to_string(), "en".to_string()),
        &Term::LangLiteral("x".to_string(), "en".to_string())
    ));
    assert!(!term_eq(
        &Term::LangLiteral("x".to_string(), "en".to_string()),
        &Term::LangLiteral("x".to_string(), "fr".to_string())
    ));
    assert!(!term_eq(
        &Term::TypedLiteral("1".to_string(), "http://e/int".to_string()),
        &Term::SimpleLiteral("1".to_string())
    ));
    assert!(graph_eq(&None, &None));
    assert!(!graph_eq(&None, &Some(iri("http://e/g"))));
}

#[test]
fn step_outcomes_take_the_requested_shape() {
    let g = Some(iri("http://e/g"));
    let qs = quads_of_step(Ok(Some(NativeStatements::Triples(vec![triple("http://e/a", "1")]))), &g)
        .unwrap()
        .unwrap();
    assert_eq!(show(&qs), show(&vec![quad("http://e/a", "1", g.clone())]));
    let ts = triples_of_step(
        Ok(Some(NativeStatements::Quads(vec![quad("http://e/a", "1", g.clone()), quad("http://e/b", "2", None)]))),
        &g,
    )
    .unwrap()
    .unwrap();
    assert_eq!(show(&ts), show(&vec![triple("http://e/a", "1")]));
    assert!(matches!(quads_of_step(Ok(None), &g), Ok(None)));
    assert!(matches!(
        triples_of_step(Err(InnerParseError::QuotedTriple), &g),
        Err(e) if matches!(e.0, InnerParseError::QuotedTriple)
    ));
}

#[test]
fn engine_steps_with_quoted_triples_fail() {
    let ok = triples_step(Ok(vec![Some(triple("http://e/a", "1"))])).unwrap();
    assert!(matches!(ok, Some(NativeStatements::Triples(ref v)) if v.len() == 1));
    assert!(matches!(
        triples_step(Ok(vec![Some(triple("http://e/a", "1")), None])),
        Err(InnerParseError::QuotedTriple)
    ));
    assert!(matches!(quads_step(Ok(vec![None])), Err(InnerParseError::QuotedTriple)));
    assert!(matches!(quads_step(Ok(vec![])), Ok(Some(NativeStatements::Quads(ref v))) if v.is_empty()));
}

#[test]
fn stream_errors_keep_source_and_sink_apart() {
    let source: StreamError<InnerParseError, String> = StreamError::SourceError(InnerParseError::QuotedTriple);
    assert!(matches!(
        adapt_quads_stream_error(source),
        StreamError::SourceError(e) if matches!(e.0, InnerParseError::QuotedTriple)
    ));
    let sink: StreamError<InnerParseError, String> = StreamError::SinkError("full".to_string());
    assert!(matches!(adapt_quads_stream_error(sink), StreamError::SinkError(s) if s == "full"));
    let ok: Result<u32, StreamError<InnerParseError, String>> = Ok(7);
    assert!(matches!(adapt_stream_result(ok), Ok(7)));
    let bad: Result<u32, StreamError<InnerParseError, String>> = Err(StreamError::SinkError("x".to_string()));
    assert!(matches!(adapt_stream_result(bad), Err(StreamError::SinkError(s)) if s == "x"));
}
