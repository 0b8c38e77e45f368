use rdf_dynsyn::correspondence::{syntax_to_extension, syntax_to_media_type, Correspondent};
use rdf_dynsyn::file_extension::FileExtension;
use rdf_dynsyn::media_type::MediaType;
use rdf_dynsyn::syntax::RdfSyntax;

const CANONICAL: [(RdfSyntax, &str, &str, bool); 11] = [
    (RdfSyntax::Turtle, "ttl", "text/turtle", true),
    (RdfSyntax::NTriples, "nt", "application/n-triples", true),
    (RdfSyntax::NQuads, "nq", "application/n-quads", true),
    (RdfSyntax::TriG, "trig", "application/trig", true),
    (RdfSyntax::RdfXml, "rdf", "application/rdf+xml", true),
    (RdfSyntax::JsonLd, "jsonld", "application/ld+json", true),
    (RdfSyntax::HtmlRdfa, "html", "text/html", false),
    (RdfSyntax::XhtmlRdfa, "xhtml", "application/xhtml+xml", false),
    (RdfSyntax::Owl2Manchester, "omn", "text/owl-manchester", true),
    (RdfSyntax::Owl2Xml, "owl", "application/owl+xml", true),
    (RdfSyntax::N3, "n3", "text/n3", true),
];

fn resolve_extension(e: &str) -> Option<(RdfSyntax, bool)> {
    Correspondent::<RdfSyntax>::try_from_file_extension(&FileExtension::from_static(e))
        .ok()
        .map(|c| (c.value, c.is_total))
}

fn resolve_media_type(m: &str) -> Option<(RdfSyntax, bool)> {
    let m = MediaType::parse(m).unwrap();
    Correspondent::<RdfSyntax>::try_from_media_type(&m).ok().map(|c| (c.value, c.is_total))
}

#[test]
fn canonical_extensions_resolve_to_their_syntax() {
    for (s, e, _, total) in CANONICAL {
        assert_eq!(resolve_extension(e), Some((s, total)), "{}", e);
    }
}

#[test]
fn canonical_media_types_resolve_to_their_syntax() {
    for (s, _, m, total) in CANONICAL {
        assert_eq!(resolve_media_type(m), Some((s, total)), "{}", m);
    }
}

#[test]
fn secondary_extensions_resolve() {
    assert_eq!(resolve_extension("json"), Some((RdfSyntax::JsonLd, false)));
    assert_eq!(resolve_extension("nquads"), Some((RdfSyntax::NQuads, true)));
    assert_eq!(resolve_extension("ntriples"), Some((RdfSyntax::NTriples, true)));
    assert_eq!(resolve_extension("rdfxml"), Some((RdfSyntax::RdfXml, true)));
    assert_eq!(resolve_extension("owx"), Some((RdfSyntax::Owl2Xml, true)));
    assert_eq!(resolve_extension("turtle"), Some((RdfSyntax::Turtle, true)));
}

#[test]
fn non_rdf_file_extensions_should_not_have_correspondent_syntax() {
    for e in ["png", "pdf", "mp3", "avf", "c", "rs", "TTL", ""] {
        let err = Correspondent::<RdfSyntax>::try_from_file_extension(&FileExtension::from_static(e))
            .unwrap_err();
        assert_eq!(err.0, FileExtension::from_static(e));
    }
}

#[test]
fn non_rdf_media_types_should_not_have_correspondent_syntax() {
    for m in ["application/pdf", "application/javascript", "font/woff", "image/*", "text/csv"] {
        let mt = MediaType::parse(m).unwrap();
        let err = Correspondent::<RdfSyntax>::try_from_media_type(&mt).unwrap_err();
        assert_eq!(err.0.essence(), m);
    }
}

#[test]
fn media_type_parameters_and_case_are_ignored() {
    assert_eq!(resolve_media_type("Text/Turtle; charset=utf-8"), Some((RdfSyntax::Turtle, true)));
    assert_eq!(MediaType::parse("Application/TriG").unwrap().essence(), "application/trig");
}

#[test]
fn malformed_media_type_is_not_parsed() {
    assert!(MediaType::parse("not a media type").is_none());
    assert!(MediaType::parse("").is_none());
}

#[test]
fn reverse_maps_give_canonical_keys() {
    for (s, e, m, _) in CANONICAL {
        let ext = syntax_to_extension(s);
        assert_eq!(ext.value.as_str(), e);
        assert!(ext.is_total);
        let mt = syntax_to_media_type(s);
        assert_eq!(mt.value.essence(), m);
        assert!(mt.is_total);
    }
}

#[test]
fn extension_is_taken_from_the_path() {
    assert_eq!(FileExtension::from_path_str("data/graph.ttl"), Some(FileExtension::from_static("ttl")));
    assert_eq!(FileExtension::from_path_str("archive.tar.nq"), Some(FileExtension::from_static("nq")));
    assert_eq!(FileExtension::from_path_str("dir.d/README"), None);
    assert_eq!(FileExtension::from_path_str(".hidden"), None);
    assert_eq!(FileExtension::from_path_str("Graph.TTL").unwrap().as_str(), "TTL");
}

#[test]
fn quad_capability() {
    assert!(RdfSyntax::NQuads.is_quad_capable());
    assert!(RdfSyntax::TriG.is_quad_capable());
    assert!(!RdfSyntax::Turtle.is_quad_capable());
    assert!(!RdfSyntax::JsonLd.is_quad_capable());
}
