//! Correspondence between syntaxes, file extensions and media types.
use vstd::prelude::*;

use crate::file_extension::FileExtension;
use crate::media_type::MediaType;
use crate::syntax::RdfSyntax;
use crate::text::str_eq;

verus! {

/// A value that corresponds to some other entity, with whether the
/// correspondence is exclusive.
#[derive(Clone, Debug)]
pub struct Correspondent<T> {
    /// The corresponding value.
    pub value: T,
    /// Whether every document that bears the key is in this correspondence.
    pub is_total: bool,
}

/// One row of a correspondence table: a key, its syntax, and whether the key
/// denotes that syntax exclusively.
pub type TableRow = (Seq<char>, RdfSyntax, bool);

/// The first row of the table whose key is `k`.
pub open spec fn lookup(table: Seq<TableRow>, k: Seq<char>) -> Option<(RdfSyntax, bool)>
    decreases table.len(),
{
    if table.len() == 0 {
        None
    } else if table[0].0 == k {
        Some((table[0].1, table[0].2))
    } else {
        lookup(table.drop_first(), k)
    }
}

/// File extensions of RDF documents and the syntaxes they stand for.
pub open spec fn extension_table() -> Seq<TableRow> {
    seq![
        ("html"@, RdfSyntax::HtmlRdfa, false),
        ("jsonld"@, RdfSyntax::JsonLd, true),
        ("json"@, RdfSyntax::JsonLd, false),
        ("n3"@, RdfSyntax::N3, true),
        ("nq"@, RdfSyntax::NQuads, true),
        ("nquads"@, RdfSyntax::NQuads, true),
        ("nt"@, RdfSyntax::NTriples, true),
        ("ntriples"@, RdfSyntax::NTriples, true),
        ("omn"@, RdfSyntax::Owl2Manchester, true),
        ("owl"@, RdfSyntax::Owl2Xml, true),
        ("owx"@, RdfSyntax::Owl2Xml, true),
        ("rdf"@, RdfSyntax::RdfXml, true),
        ("rdfxml"@, RdfSyntax::RdfXml, true),
        ("trig"@, RdfSyntax::TriG, true),
        ("ttl"@, RdfSyntax::Turtle, true),
        ("turtle"@, RdfSyntax::Turtle, true),
        ("xhtml"@, RdfSyntax::XhtmlRdfa, false),
    ]
}

/// Media type essences of RDF documents and the syntaxes they stand for.
pub open spec fn media_type_table() -> Seq<TableRow> {
    seq![
        ("text/html"@, RdfSyntax::HtmlRdfa, false),
        ("application/ld+json"@, RdfSyntax::JsonLd, true),
        ("text/n3"@, RdfSyntax::N3, true),
        ("application/n-quads"@, RdfSyntax::NQuads, true),
        ("application/n-triples"@, RdfSyntax::NTriples, true),
        ("text/owl-manchester"@, RdfSyntax::Owl2Manchester, true),
        ("application/owl+xml"@, RdfSyntax::Owl2Xml, true),
        ("application/rdf+xml"@, RdfSyntax::RdfXml, true),
        ("application/trig"@, RdfSyntax::TriG, true),
        ("text/turtle"@, RdfSyntax::Turtle, true),
        ("application/xhtml+xml"@, RdfSyntax::XhtmlRdfa, false),
    ]
}

/// The syntax, and totality, that a file extension stands for.
pub open spec fn extension_correspondence(e: Seq<char>) -> Option<(RdfSyntax, bool)> {
    lookup(extension_table(), e)
}

/// The syntax, and totality, that a media type essence stands for.
pub open spec fn media_type_correspondence(m: Seq<char>) -> Option<(RdfSyntax, bool)> {
    lookup(media_type_table(), m)
}

/// The preferred file extension of each syntax.
pub open spec fn canonical_extension(s: RdfSyntax) -> Seq<char> {
    match s {
        RdfSyntax::HtmlRdfa => "html"@,
        RdfSyntax::JsonLd => "jsonld"@,
        RdfSyntax::N3 => "n3"@,
        RdfSyntax::NQuads => "nq"@,
        RdfSyntax::NTriples => "nt"@,
        RdfSyntax::Owl2Manchester => "omn"@,
        RdfSyntax::Owl2Xml => "owl"@,
        RdfSyntax::RdfXml => "rdf"@,
        RdfSyntax::TriG => "trig"@,
        RdfSyntax::Turtle => "ttl"@,
        RdfSyntax::XhtmlRdfa => "xhtml"@,
    }
}

/// The canonical media type of each syntax.
pub open spec fn canonical_media_type(s: RdfSyntax) -> Seq<char> {
    match s {
        RdfSyntax::HtmlRdfa => "text/html"@,
        RdfSyntax::JsonLd => "application/ld+json"@,
        RdfSyntax::N3 => "text/n3"@,
        RdfSyntax::NQuads => "application/n-quads"@,
        RdfSyntax::NTriples => "application/n-triples"@,
        RdfSyntax::Owl2Manchester => "text/owl-manchester"@,
        RdfSyntax::Owl2Xml => "application/owl+xml"@,
        RdfSyntax::RdfXml => "application/rdf+xml"@,
        RdfSyntax::TriG => "application/trig"@,
        RdfSyntax::Turtle => "text/turtle"@,
        RdfSyntax::XhtmlRdfa => "application/xhtml+xml"@,
    }
}

/// Whether the syntax's canonical keys are shared with content that is not RDF.
pub open spec fn is_partially_corresponding(s: RdfSyntax) -> bool {
    s == RdfSyntax::HtmlRdfa || s == RdfSyntax::XhtmlRdfa
}

/// Looking up a key finds the first row that holds it.
proof fn lemma_lookup_first(table: Seq<TableRow>, k: Seq<char>, i: int)
    requires
        0 <= i < table.len(),
        table[i].0 == k,
        forall|j: int| 0 <= j < i ==> table[j].0 != k,
    ensures
        lookup(table, k) == Some((table[i].1, table[i].2)),
    decreases i,
{
    if i > 0 {
        assert(table[0].0 != k);
        lemma_lookup_first(table.drop_first(), k, i - 1);
    }
}

/// Every syntax's preferred file extension resolves back to that syntax, and
/// the correspondence is total unless the extension is shared with non-RDF
/// content.
pub proof fn lemma_canonical_extension_resolves(s: RdfSyntax)
    ensures
        extension_correspondence(canonical_extension(s)) == Some((s, !is_partially_corresponding(s))),
{
    reveal_strlit("html");
    reveal_strlit("jsonld");
    reveal_strlit("json");
    reveal_strlit("n3");
    reveal_strlit("nq");
    reveal_strlit("nquads");
    reveal_strlit("nt");
    reveal_strlit("ntriples");
    reveal_strlit("omn");
    reveal_strlit("owl");
    reveal_strlit("owx");
    reveal_strlit("rdf");
    reveal_strlit("rdfxml");
    reveal_strlit("trig");
    reveal_strlit("ttl");
    reveal_strlit("turtle");
    reveal_strlit("xhtml");
    let t = extension_table();
    let k = canonical_extension(s);
    match s {
        RdfSyntax::HtmlRdfa => {

            lemma_lookup_first(t, k, 0);
        },
        RdfSyntax::JsonLd => {
            assert(t[0].0.len() != k.len());
            lemma_lookup_first(t, k, 1);
        },
        RdfSyntax::N3 => {
            assert(t[0].0.len() != k.len());
            assert(t[1].0.len() != k.len());
            assert(t[2].0.len() != k.len());
            lemma_lookup_first(t, k, 3);
        },
        RdfSyntax::NQuads => {
            assert(t[0].0.len() != k.len());
            assert(t[1].0.len() != k.len());
            assert(t[2].0.len() != k.len());
            assert(t[3].0[1] != k[1]);
            lemma_lookup_first(t, k, 4);
        },
        RdfSyntax::NTriples => {
            assert(t[0].0.len() != k.len());
            assert(t[1].0.len() != k.len());
            assert(t[2].0.len() != k.len());
            assert(t[3].0[1] != k[1]);
            assert(t[4].0[1] != k[1]);
            assert(t[5].0.len() != k.len());
            lemma_lookup_first(t, k, 6);
        },
        RdfSyntax::Owl2Manchester => {
            assert(t[0].0.len() != k.len());
            assert(t[1].0.len() != k.len());
            assert(t[2].0.len() != k.len());
            assert(t[3].0.len() != k.len());
            assert(t[4].0.len() != k.len());
            assert(t[5].0.len() != k.len());
            assert(t[6].0.len() != k.len());
            assert(t[7].0.len() != k.len());
            lemma_lookup_first(t, k, 8);
        },
        RdfSyntax::Owl2Xml => {
            assert(t[0].0.len() != k.len());
            assert(t[1].0.len() != k.len());
            assert(t[2].0.len() != k.len());
            assert(t[3].0.len() != k.len());
            assert(t[4].0.len() != k.len());
            assert(t[5].0.len() != k.len());
            assert(t[6].0.len() != k.len());
            assert(t[7].0.len() != k.len());
            assert(t[8].0[1] != k[1]);
            lemma_lookup_first(t, k, 9);
        },
        RdfSyntax::RdfXml => {
            assert(t[0].0.len() != k.len());
            assert(t[1].0.len() != k.len());
            assert(t[2].0.len() != k.len());
            assert(t[3].0.len() != k.len());
            assert(t[4].0.len() != k.len());
            assert(t[5].0.len() != k.len());
            assert(t[6].0.len() != k.len());
            assert(t[7].0.len() != k.len());
            assert(t[8].0[0] != k[0]);
            assert(t[9].0[0] != k[0]);
            assert(t[10].0[0] != k[0]);
            lemma_lookup_first(t, k, 11);
        },
        RdfSyntax::TriG => {
            assert(t[0].0[0] != k[0]);
            assert(t[1].0.len() != k.len());
            assert(t[2].0[0] != k[0]);
            assert(t[3].0.len() != k.len());
            assert(t[4].0.len() != k.len());
            assert(t[5].0.len() != k.len());
            assert(t[6].0.len() != k.len());
            assert(t[7].0.len() != k.len());
            assert(t[8].0.len() != k.len());
            assert(t[9].0.len() != k.len());
            assert(t[10].0.len() != k.len());
            assert(t[11].0.len() != k.len());
            assert(t[12].0.len() != k.len());
            lemma_lookup_first(t, k, 13);
        },
        RdfSyntax::Turtle => {
            assert(t[0].0.len() != k.len());
            assert(t[1].0.len() != k.len());
            assert(t[2].0.len() != k.len());
            assert(t[3].0.len() != k.len());
            assert(t[4].0.len() != k.len());
            assert(t[5].0.len() != k.len());
            assert(t[6].0.len() != k.len());
            assert(t[7].0.len() != k.len());
            assert(t[8].0[0] != k[0]);
            assert(t[9].0[0] != k[0]);
            assert(t[10].0[0] != k[0]);
            assert(t[11].0[0] != k[0]);
            assert(t[12].0.len() != k.len());
            assert(t[13].0.len() != k.len());
            lemma_lookup_first(t, k, 14);
        },
        RdfSyntax::XhtmlRdfa => {
            assert(t[0].0.len() != k.len());
            assert(t[1].0.len() != k.len());
            assert(t[2].0.len() != k.len());
            assert(t[3].0.len() != k.len());
            assert(t[4].0.len() != k.len());
            assert(t[5].0.len() != k.len());
            assert(t[6].0.len() != k.len());
            assert(t[7].0.len() != k.len());
            assert(t[8].0.len() != k.len());
            assert(t[9].0.len() != k.len());
            assert(t[10].0.len() != k.len());
            assert(t[11].0.len() != k.len());
            assert(t[12].0.len() != k.len());
            assert(t[13].0.len() != k.len());
            assert(t[14].0.len() != k.len());
            assert(t[15].0.len() != k.len());
            lemma_lookup_first(t, k, 16);
        },
    }
}

/// Every syntax's canonical media type resolves back to that syntax, and the
/// correspondence is total unless the media type is shared with non-RDF
/// content.
pub proof fn lemma_canonical_media_type_resolves(s: RdfSyntax)
    ensures
        media_type_correspondence(canonical_media_type(s)) == Some((s, !is_partially_corresponding(s))),
{
    reveal_strlit("text/html");
    reveal_strlit("application/ld+json");
    reveal_strlit("text/n3");
    reveal_strlit("application/n-quads");
    reveal_strlit("application/n-triples");
    reveal_strlit("text/owl-manchester");
    reveal_strlit("application/owl+xml");
    reveal_strlit("application/rdf+xml");
    reveal_strlit("application/trig");
    reveal_strlit("text/turtle");
    reveal_strlit("application/xhtml+xml");
    let t = media_type_table();
    let k = canonical_media_type(s);
    match s {
        RdfSyntax::HtmlRdfa => {

            lemma_lookup_first(t, k, 0);
        },
        RdfSyntax::JsonLd => {
            assert(t[0].0.len() != k.len());
            lemma_lookup_first(t, k, 1);
        },
        RdfSyntax::N3 => {
            assert(t[0].0.len() != k.len());
            assert(t[1].0.len() != k.len());
            lemma_lookup_first(t, k, 2);
        },
        RdfSyntax::NQuads => {
            assert(t[0].0.len() != k.len());
            assert(t[1].0[12] != k[12]);
            assert(t[2].0.len() != k.len());
            lemma_lookup_first(t, k, 3);
        },
        RdfSyntax::NTriples => {
            assert(t[0].0.len() != k.len());
            assert(t[1].0.len() != k.len());
            assert(t[2].0.len() != k.len());
            assert(t[3].0.len() != k.len());
            lemma_lookup_first(t, k, 4);
        },
        RdfSyntax::Owl2Manchester => {
            assert(t[0].0.len() != k.len());
            assert(t[1].0[0] != k[0]);
            assert(t[2].0.len() != k.len());
            assert(t[3].0[0] != k[0]);
            assert(t[4].0.len() != k.len());
            lemma_lookup_first(t, k, 5);
        },
        RdfSyntax::Owl2Xml => {
            assert(t[0].0.len() != k.len());
            assert(t[1].0[12] != k[12]);
            assert(t[2].0.len() != k.len());
            assert(t[3].0[12] != k[12]);
            assert(t[4].0.len() != k.len());
            assert(t[5].0[0] != k[0]);
            lemma_lookup_first(t, k, 6);
        },
        RdfSyntax::RdfXml => {
            assert(t[0].0.len() != k.len());
            assert(t[1].0[12] != k[12]);
            assert(t[2].0.len() != k.len());
            assert(t[3].0[12] != k[12]);
            assert(t[4].0.len() != k.len());
            assert(t[5].0[0] != k[0]);
            assert(t[6].0[12] != k[12]);
            lemma_lookup_first(t, k, 7);
        },
        RdfSyntax::TriG => {
            assert(t[0].0.len() != k.len());
            assert(t[1].0.len() != k.len());
            assert(t[2].0.len() != k.len());
            assert(t[3].0.len() != k.len());
            assert(t[4].0.len() != k.len());
            assert(t[5].0.len() != k.len());
            assert(t[6].0.len() != k.len());
            assert(t[7].0.len() != k.len());
            lemma_lookup_first(t, k, 8);
        },
        RdfSyntax::Turtle => {
            assert(t[0].0.len() != k.len());
            assert(t[1].0.len() != k.len());
            assert(t[2].0.len() != k.len());
            assert(t[3].0.len() != k.len());
            assert(t[4].0.len() != k.len());
            assert(t[5].0.len() != k.len());
            assert(t[6].0.len() != k.len());
            assert(t[7].0.len() != k.len());
            assert(t[8].0.len() != k.len());
            lemma_lookup_first(t, k, 9);
        },
        RdfSyntax::XhtmlRdfa => {
            assert(t[0].0.len() != k.len());
            assert(t[1].0.len() != k.len());
            assert(t[2].0.len() != k.len());
            assert(t[3].0.len() != k.len());
            assert(t[4].0[12] != k[12]);
            assert(t[5].0.len() != k.len());
            assert(t[6].0.len() != k.len());
            assert(t[7].0.len() != k.len());
            assert(t[8].0.len() != k.len());
            assert(t[9].0.len() != k.len());
            lemma_lookup_first(t, k, 10);
        },
    }
}

/// A media type that no RDF syntax corresponds to.
#[derive(Clone, Debug)]
pub struct NonRdfMediaTypeError(pub MediaType);

/// A file extension that no RDF syntax corresponds to.
#[derive(Clone, Debug)]
pub struct NonRdfFileExtensionError(pub FileExtension);

/// The spec view of an executable table.
pub open spec fn table_view(t: Seq<(&str, RdfSyntax, bool)>) -> Seq<TableRow> {
    t.map_values(|r: (&str, RdfSyntax, bool)| (r.0@, r.1, r.2))
}

/// Scans a table for its first row with the given key.
fn table_lookup(table: &Vec<(&str, RdfSyntax, bool)>, k: &str) -> (r: Option<(RdfSyntax, bool)>)
    ensures
        r == lookup(table_view(table@), k@),
{
    let mut i: usize = 0;
    assert(table_view(table@).subrange(0, table@.len() as int) =~= table_view(table@));
    while i < table.len()
        invariant
            i <= table@.len(),
            lookup(table_view(table@), k@) == lookup(table_view(table@).subrange(i as int, table@.len() as int), k@),
        decreases table.len() - i,
    {
        let row = table[i];
        let ghost rest = table_view(table@).subrange(i as int, table@.len() as int);
        assert(rest.drop_first() =~= table_view(table@).subrange(i + 1, table@.len() as int));
        if str_eq(row.0, k) {
            return Some((row.1, row.2));
        }
        i = i + 1;
    }
    None
}

fn extension_rows() -> (r: Vec<(&'static str, RdfSyntax, bool)>)
    ensures
        table_view(r@) == extension_table(),
{
    let r = vec![
        ("html", RdfSyntax::HtmlRdfa, false),
        ("jsonld", RdfSyntax::JsonLd, true),
        ("json", RdfSyntax::JsonLd, false),
        ("n3", RdfSyntax::N3, true),
        ("nq", RdfSyntax::NQuads, true),
        ("nquads", RdfSyntax::NQuads, true),
        ("nt", RdfSyntax::NTriples, true),
        ("ntriples", RdfSyntax::NTriples, true),
        ("omn", RdfSyntax::Owl2Manchester, true),
        ("owl", RdfSyntax::Owl2Xml, true),
        ("owx", RdfSyntax::Owl2Xml, true),
        ("rdf", RdfSyntax::RdfXml, true),
        ("rdfxml", RdfSyntax::RdfXml, true),
        ("trig", RdfSyntax::TriG, true),
        ("ttl", RdfSyntax::Turtle, true),
        ("turtle", RdfSyntax::Turtle, true),
        ("xhtml", RdfSyntax::XhtmlRdfa, false),
    ];
    assert(table_view(r@) =~= extension_table());
    r
}

fn media_type_rows() -> (r: Vec<(&'static str, RdfSyntax, bool)>)
    ensures
        table_view(r@) == media_type_table(),
{
    let r = vec![
        ("text/html", RdfSyntax::HtmlRdfa, false),
        ("application/ld+json", RdfSyntax::JsonLd, true),
        ("text/n3", RdfSyntax::N3, true),
        ("application/n-quads", RdfSyntax::NQuads, true),
        ("application/n-triples", RdfSyntax::NTriples, true),
        ("text/owl-manchester", RdfSyntax::Owl2Manchester, true),
        ("application/owl+xml", RdfSyntax::Owl2Xml, true),
        ("application/rdf+xml", RdfSyntax::RdfXml, true),
        ("application/trig", RdfSyntax::TriG, true),
        ("text/turtle", RdfSyntax::Turtle, true),
        ("application/xhtml+xml", RdfSyntax::XhtmlRdfa, false),
    ];
    assert(table_view(r@) =~= media_type_table());
    r
}

impl Correspondent<RdfSyntax> {
    /// The syntax that a file extension corresponds to.
    pub fn try_from_file_extension(file_extension: &FileExtension) -> (r: Result<
        Correspondent<RdfSyntax>,
        NonRdfFileExtensionError,
    >)
        ensures
            match extension_correspondence(file_extension.0@) {
                Some((s, t)) => r matches Ok(c) && c.value == s && c.is_total == t,
                None => r matches Err(e) && e.0 == *file_extension,
            },
    {
        let rows = extension_rows();
        match table_lookup(&rows, file_extension.as_str()) {
            Some((s, t)) => Ok(Correspondent { value: s, is_total: t }),
            None => Err(NonRdfFileExtensionError(file_extension.duplicate())),
        }
    }

    /// The syntax that a media type corresponds to.
    pub fn try_from_media_type(media_type: &MediaType) -> (r: Result<
        Correspondent<RdfSyntax>,
        NonRdfMediaTypeError,
    >)
        ensures
            match media_type_correspondence(media_type@) {
                Some((s, t)) => r matches Ok(c) && c.value == s && c.is_total == t,
                None => r matches Err(e) && e.0 == *media_type,
            },
    {
        let rows = media_type_rows();
        match table_lookup(&rows, media_type.essence()) {
            Some((s, t)) => Ok(Correspondent { value: s, is_total: t }),
            None => Err(NonRdfMediaTypeError(media_type.duplicate())),
        }
    }
}

/// The preferred file extension of a syntax.
pub fn syntax_to_extension(s: RdfSyntax) -> (r: Correspondent<FileExtension>)
    ensures
        r.value.0@ == canonical_extension(s),
        r.is_total,
{
    let e = match s {
        RdfSyntax::HtmlRdfa => "html",
        RdfSyntax::JsonLd => "jsonld",
        RdfSyntax::N3 => "n3",
        RdfSyntax::NQuads => "nq",
        RdfSyntax::NTriples => "nt",
        RdfSyntax::Owl2Manchester => "omn",
        RdfSyntax::Owl2Xml => "owl",
        RdfSyntax::RdfXml => "rdf",
        RdfSyntax::TriG => "trig",
        RdfSyntax::Turtle => "ttl",
        RdfSyntax::XhtmlRdfa => "xhtml",
    };
    Correspondent { value: FileExtension::from_static(e), is_total: true }
}

/// The canonical media type of a syntax.
pub fn syntax_to_media_type(s: RdfSyntax) -> (r: Correspondent<MediaType>)
    ensures
        r.value@ == canonical_media_type(s),
        r.is_total,
{
    let m = match s {
        RdfSyntax::HtmlRdfa => "text/html",
        RdfSyntax::JsonLd => "application/ld+json",
        RdfSyntax::N3 => "text/n3",
        RdfSyntax::NQuads => "application/n-quads",
        RdfSyntax::NTriples => "application/n-triples",
        RdfSyntax::Owl2Manchester => "text/owl-manchester",
        RdfSyntax::Owl2Xml => "application/owl+xml",
        RdfSyntax::RdfXml => "application/rdf+xml",
        RdfSyntax::TriG => "application/trig",
        RdfSyntax::Turtle => "text/turtle",
        RdfSyntax::XhtmlRdfa => "application/xhtml+xml",
    };
    Correspondent { value: MediaType::from_static(m), is_total: true }
}

} // verus!
