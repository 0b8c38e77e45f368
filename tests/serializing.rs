use rdf_dynsyn::parser::{DynSynQuadParserFactory, DynSynTripleParserFactory};
use rdf_dynsyn::serializer::{
    DynSynQuadSerializerFactory, DynSynSerializeError, DynSynTripleSerializerFactory,
    QuadSerializerConfig, QuadSyntaxConfig, TripleSerializerConfig, TripleSyntaxConfig, TurtleOptions,
};
use rdf_dynsyn::statement::{Quad, Term, Triple};
use rdf_dynsyn::syntax::RdfSyntax;

const TURTLE_DOC: &str = r#"
    PREFIX : <http://example.org/ns/>
    :alice a :Person; :name "Alice"; :age 42.
    :bob a :Person, :Man; :nick "bob"@fr, "bobby"@en; :admin true.
    <tag:alice> <tag:likes> ( 1 2 ( 3 4 ) 5 6 ), ("a" "b").
    _:a :n "a"; :p [ :q [ :r _:a ]].
"#;

const TRIG_DOC: &str = r#"
    PREFIX : <http://example.org/ns/>
    :alice a :Person; :name "Alice"; :age 42.
    GRAPH :g {
        :bob a :Person, :Man; :nick "bob"@fr, "bobby"@en; :admin true.
    }
    GRAPH <tag:g> { <tag:alice> <tag:likes> ( 1 2 ( 3 4 ) 5 6 ), ("a" "b"). }
"#;

fn triples_of(syntax: RdfSyntax, doc: &[u8]) -> Vec<Triple> {
    let mut src = DynSynTripleParserFactory::new()
        .try_new_parser(syntax, None, None)
        .unwrap()
        .parse(doc.to_vec());
    let mut out = Vec::new();
    while let Some(ts) = src.try_for_some_triple().unwrap() {
        out.extend(ts);
    }
    out
}

fn quads_of(syntax: RdfSyntax, doc: &[u8]) -> Vec<Quad> {
    let mut src = DynSynQuadParserFactory::new()
        .try_new_parser(syntax, None, None)
        .unwrap()
        .parse(doc.to_vec());
    let mut out = Vec::new();
    while let Some(qs) = src.try_for_some_quad().unwrap() {
        out.extend(qs);
    }
    out
}

fn blank_free(t: &Term) -> String {
    match t {
        Term::BlankNode(_) => "_".to_string(),
        other => format!("{:?}", other),
    }
}

/// The statements with blank nodes erased, sorted: equal for isomorphic
/// documents.
fn shape_of_triples(ts: &[Triple]) -> Vec<String> {
    let mut v: Vec<String> = ts
        .iter()
        .map(|t| format!("{} {} {}", blank_free(&t.subject), blank_free(&t.predicate), blank_free(&t.object)))
        .collect();
    v.sort();
    v
}

fn shape_of_quads(qs: &[Quad]) -> Vec<String> {
    let mut v: Vec<String> = qs
        .iter()
        .map(|q| {
            format!(
                "{} {} {} {:?}",
                blank_free(&q.subject),
                blank_free(&q.predicate),
                blank_free(&q.object),
                q.graph_name.as_ref().map(blank_free)
            )
        })
        .collect();
    v.sort();
    v
}

#[test]
fn triple_syntaxes_round_trip() {
    let original = triples_of(RdfSyntax::Turtle, TURTLE_DOC.as_bytes());
    assert!(original.len() > 20);
    let factory = DynSynTripleSerializerFactory::new(None);
    for s in [RdfSyntax::Turtle, RdfSyntax::NTriples, RdfSyntax::RdfXml] {
        let mut ser = factory.try_new_stringifier(s).unwrap();
        ser.serialize_triples(&original).unwrap();
        let back = triples_of(s, &ser.as_utf8());
        assert_eq!(shape_of_triples(&back), shape_of_triples(&original), "{:?}", s);
    }
}

#[test]
fn quad_syntaxes_round_trip() {
    let original = quads_of(RdfSyntax::TriG, TRIG_DOC.as_bytes());
    assert!(original.iter().any(|q| q.graph_name.is_none()));
    assert!(original.iter().any(|q| q.graph_name.is_some()));
    let factory = DynSynQuadSerializerFactory::new(None);
    for s in [RdfSyntax::TriG, RdfSyntax::NQuads] {
        let mut ser = factory.try_new_stringifier(s).unwrap();
        ser.serialize_quads(&original).unwrap();
        let back = quads_of(s, &ser.as_utf8());
        assert_eq!(shape_of_quads(&back), shape_of_quads(&original), "{:?}", s);
    }
}

#[test]
fn pretty_turtle_differs_but_reads_the_same() {
    let original = triples_of(RdfSyntax::Turtle, TURTLE_DOC.as_bytes());
    let plain = DynSynTripleSerializerFactory::new(None);
    let pretty = DynSynTripleSerializerFactory::new(Some(TripleSerializerConfig {
        turtle: Some(TurtleOptions { pretty: true, indentation: 4 }),
    }));
    let mut a = plain.try_new_stringifier(RdfSyntax::Turtle).unwrap();
    a.serialize_triples(&original).unwrap();
    let mut b = pretty.try_new_stringifier(RdfSyntax::Turtle).unwrap();
    b.serialize_triples(&original).unwrap();
    assert_ne!(a.as_utf8(), b.as_utf8());
    let from_a = triples_of(RdfSyntax::Turtle, &a.as_utf8());
    let from_b = triples_of(RdfSyntax::Turtle, &b.as_utf8());
    assert_eq!(shape_of_triples(&from_a), shape_of_triples(&from_b));
    assert_eq!(shape_of_triples(&from_a), shape_of_triples(&original));
}

#[test]
fn pretty_trig_differs_but_reads_the_same() {
    let original = quads_of(RdfSyntax::TriG, TRIG_DOC.as_bytes());
    let plain = DynSynQuadSerializerFactory::new(None);
    let pretty = DynSynQuadSerializerFactory::new(Some(QuadSerializerConfig {
        trig: Some(TurtleOptions { pretty: true, indentation: 2 }),
    }));
    let mut a = plain.try_new_stringifier(RdfSyntax::TriG).unwrap();
    a.serialize_quads(&original).unwrap();
    let mut b = pretty.try_new_stringifier(RdfSyntax::TriG).unwrap();
    b.serialize_quads(&original).unwrap();
    assert_ne!(a.as_utf8(), b.as_utf8());
    assert_eq!(
        shape_of_quads(&quads_of(RdfSyntax::TriG, &a.as_utf8())),
        shape_of_quads(&quads_of(RdfSyntax::TriG, &b.as_utf8()))
    );
}

#[test]
fn serializers_exist_only_for_writable_syntaxes() {
    let t = DynSynTripleSerializerFactory::new(None);
    let q = DynSynQuadSerializerFactory::new(None);
    for s in [RdfSyntax::NTriples, RdfSyntax::Turtle, RdfSyntax::RdfXml] {
        assert!(t.try_new_stringifier(s).is_ok());
        assert!(t.get_config(s).is_some());
        assert_eq!(q.try_new_stringifier(s).err().unwrap().0, s);
    }
    for s in [RdfSyntax::NQuads, RdfSyntax::TriG] {
        assert!(q.try_new_stringifier(s).is_ok());
        assert!(q.get_config(s).is_some());
        assert_eq!(t.try_new_stringifier(s).err().unwrap().0, s);
    }
    for s in [RdfSyntax::JsonLd, RdfSyntax::HtmlRdfa, RdfSyntax::N3, RdfSyntax::Owl2Xml, RdfSyntax::XhtmlRdfa, RdfSyntax::Owl2Manchester] {
        assert_eq!(t.try_new_stringifier(s).err().unwrap().0, s);
        assert_eq!(q.try_new_stringifier(s).err().unwrap().0, s);
        assert!(t.get_config(s).is_none());
    }
}

#[test]
fn simple_literal_is_written_as_plain_string() {
    let t = Triple {
        subject: Term::Iri("http://e/a".to_string()),
        predicate: Term::Iri("http://e/b".to_string()),
        object: Term::SimpleLiteral("x".to_string()),
    };
    let mut ser = DynSynTripleSerializerFactory::new(None).try_new_stringifier(RdfSyntax::NTriples).unwrap();
    ser.serialize_triples(&vec![t]).unwrap();
    let text = String::from_utf8(ser.as_utf8()).unwrap();
    assert!(text.contains("<http://e/a> <http://e/b> \"x\""), "{}", text);
}

#[test]
fn invalid_terms_are_refused_before_writing() {
    let t = Triple {
        subject: Term::Iri("not an iri".to_string()),
        predicate: Term::Iri("http://e/b".to_string()),
        object: Term::LangLiteral("x".to_string(), "en".to_string()),
    };
    let mut ser = DynSynTripleSerializerFactory::new(None).try_new_stringifier(RdfSyntax::Turtle).unwrap();
    assert!(matches!(ser.serialize_triples(&vec![t]), Err(DynSynSerializeError::InvalidTerm(_))));
    assert!(ser.as_utf8().is_empty());
}

#[test]
fn registered_options_are_used_else_defaults() {
    let opts = TurtleOptions { pretty: true, indentation: 3 };
    let t = DynSynTripleSerializerFactory::new(Some(TripleSerializerConfig { turtle: Some(opts) }));
    assert_eq!(t.get_config(RdfSyntax::Turtle), Some(TripleSyntaxConfig::Turtle(opts)));
    assert_eq!(t.get_config(RdfSyntax::NTriples), Some(TripleSyntaxConfig::NTriples));
    assert_eq!(t.get_config(RdfSyntax::RdfXml), Some(TripleSyntaxConfig::RdfXml));
    let d = DynSynTripleSerializerFactory::new(None);
    assert_eq!(d.get_config(RdfSyntax::Turtle), Some(TripleSyntaxConfig::Turtle(TurtleOptions::default())));
    assert_eq!(TurtleOptions::default(), TurtleOptions { pretty: false, indentation: 2 });
    let q = DynSynQuadSerializerFactory::new(Some(QuadSerializerConfig { trig: Some(opts) }));
    assert_eq!(q.get_config(RdfSyntax::TriG), Some(QuadSyntaxConfig::TriG(opts)));
    assert_eq!(q.get_config(RdfSyntax::NQuads), Some(QuadSyntaxConfig::NQuads));
    assert_eq!(DynSynQuadSerializerFactory::new(None).get_config(RdfSyntax::TriG), Some(QuadSyntaxConfig::TriG(TurtleOptions::default())));
    assert_eq!(q.get_config(RdfSyntax::Turtle), None);
}

#[test]
fn repeated_serialization_appends() {
    let original = triples_of(RdfSyntax::Turtle, TURTLE_DOC.as_bytes());
    let mut ser = DynSynTripleSerializerFactory::new(None).try_new_stringifier(RdfSyntax::NTriples).unwrap();
    assert!(ser.as_utf8().is_empty());
    ser.serialize_triples(&original).unwrap();
    let once = ser.as_utf8();
    ser.serialize_triples(&original).unwrap();
    let twice = ser.as_utf8();
    assert_eq!(twice.len(), 2 * once.len());
    assert_eq!(&twice[..once.len()], &once[..]);
}

#[test]
fn invalid_quad_terms_are_refused_before_writing() {
    let q = Quad {
        subject: Term::BlankNode("not valid!".to_string()),
        predicate: Term::Iri("http://e/b".to_string()),
        object: Term::LangLiteral("x".to_string(), "en".to_string()),
        graph_name: None,
    };
    let mut ser = DynSynQuadSerializerFactory::new(None).try_new_stringifier(RdfSyntax::NQuads).unwrap();
    assert!(matches!(ser.serialize_quads(&vec![q]), Err(DynSynSerializeError::InvalidTerm(_))));
    assert!(ser.as_utf8().is_empty());
}

fn rest_without_first() -> Triple {
    Triple {
        subject: Term::BlankNode("a".to_string()),
        predicate: Term::Iri("http://www.w3.org/1999/02/22-rdf-syntax-ns#rest".to_string()),
        object: Term::Iri("http://www.w3.org/1999/02/22-rdf-syntax-ns#nil".to_string()),
    }
}

#[test]
fn pretty_output_refuses_a_list_node_without_first() {
    let pretty = DynSynTripleSerializerFactory::new(Some(TripleSerializerConfig {
        turtle: Some(TurtleOptions { pretty: true, indentation: 2 }),
    }));
    let mut ser = pretty.try_new_stringifier(RdfSyntax::Turtle).unwrap();
    assert!(matches!(ser.serialize_triples(&vec![rest_without_first()]), Err(DynSynSerializeError::UnwritableList)));
    assert!(ser.as_utf8().is_empty());
    let mut plain = DynSynTripleSerializerFactory::new(None).try_new_stringifier(RdfSyntax::Turtle).unwrap();
    plain.serialize_triples(&vec![rest_without_first()]).unwrap();
    assert!(!plain.as_utf8().is_empty());
    let first = Triple {
        subject: Term::BlankNode("a".to_string()),
        predicate: Term::Iri("http://www.w3.org/1999/02/22-rdf-syntax-ns#first".to_string()),
        object: Term::SimpleLiteral("x".to_string()),
    };
    let mut ser = pretty.try_new_stringifier(RdfSyntax::Turtle).unwrap();
    ser.serialize_triples(&vec![rest_without_first(), first]).unwrap();
    assert!(!ser.as_utf8().is_empty());
}

#[test]
fn pretty_trig_refuses_a_list_node_without_first_in_its_graph() {
    let rest = rest_without_first();
    let q_rest = Quad { subject: rest.subject, predicate: rest.predicate, object: rest.object, graph_name: Some(Term::Iri("http://e/g".to_string())) };
    let q_first = Quad {
        subject: Term::BlankNode("a".to_string()),
        predicate: Term::Iri("http://www.w3.org/1999/02/22-rdf-syntax-ns#first".to_string()),
        object: Term::SimpleLiteral("x".to_string()),
        graph_name: None,
    };
    let pretty = DynSynQuadSerializerFactory::new(Some(QuadSerializerConfig {
        trig: Some(TurtleOptions { pretty: true, indentation: 2 }),
    }));
    let mut ser = pretty.try_new_stringifier(RdfSyntax::TriG).unwrap();
    assert!(matches!(ser.serialize_quads(&vec![q_rest, q_first]), Err(DynSynSerializeError::UnwritableList)));
    assert!(ser.as_utf8().is_empty());
}

#[test]
fn pretty_output_of_nothing_is_not_empty() {
    let pretty = DynSynTripleSerializerFactory::new(Some(TripleSerializerConfig {
        turtle: Some(TurtleOptions { pretty: true, indentation: 2 }),
    }));
    let mut ser = pretty.try_new_stringifier(RdfSyntax::Turtle).unwrap();
    ser.serialize_triples(&vec![]).unwrap();
    assert!(!ser.as_utf8().is_empty());
}
