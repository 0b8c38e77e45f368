//! Serializers whose syntax is chosen at run time, each with the formatting
//! options registered for its syntax.
use vstd::prelude::*;

use sophia_api::serializer::{QuadSerializer, Stringifier, TripleSerializer};
use sophia_term::{BoxTerm, TermError};
use sophia_turtle::serializer::nq::NqSerializer;
use sophia_turtle::serializer::nt::NtSerializer;
use sophia_turtle::serializer::turtle::{TurtleConfig, TurtleSerializer};
use sophia_xml::serializer::RdfXmlSerializer;

use crate::statement::{lemma_same_term_view, term_eq, Quad, QuadView, Term, TermView, Triple, TripleView};
use crate::text::str_eq;
use crate::syntax::{has_quad_serializer, has_triple_serializer, RdfSyntax, UnKnownSyntaxError};

verus! {

#[verifier::external_type_specification]
#[verifier::external_body]
pub struct ExTermError(TermError);

#[verifier::external_type_specification]
#[verifier::external_body]
pub struct ExIoError(std::io::Error);

#[verifier::external_type_specification]
#[verifier::external_body]
#[verifier::reject_recursive_types(W)]
pub struct ExTurtleSerializer<W>(TurtleSerializer<W>);

#[verifier::external_type_specification]
#[verifier::external_body]
#[verifier::reject_recursive_types(W)]
pub struct ExNtSerializer<W>(NtSerializer<W>);

#[verifier::external_type_specification]
#[verifier::external_body]
#[verifier::reject_recursive_types(W)]
pub struct ExNqSerializer<W>(NqSerializer<W>);

#[verifier::external_type_specification]
#[verifier::external_body]
#[verifier::reject_recursive_types(W)]
pub struct ExRdfXmlSerializer<W>(RdfXmlSerializer<W>);

/// Formatting options of the Turtle and TriG writers.
#[derive(Clone, Copy, Debug, PartialEq, Eq, Structural)]
pub struct TurtleOptions {
    /// Group related statements and use the collection syntax, at the cost of
    /// holding the whole graph in memory.
    pub pretty: bool,
    /// How many spaces indent a nested line in pretty output.
    pub indentation: usize,
}

/// The writers' own defaults: streaming output, two-space indentation.
pub open spec fn default_turtle_options() -> TurtleOptions {
    TurtleOptions { pretty: false, indentation: 2 }
}

impl Default for TurtleOptions {
    fn default() -> (r: TurtleOptions)
        ensures
            r == default_turtle_options(),
    {
        TurtleOptions { pretty: false, indentation: 2 }
    }
}

/// Whether `sophia_term` accepts the text as an IRI.
pub uninterp spec fn iri_ok(iri: Seq<char>) -> bool;

/// Whether `sophia_term` accepts the text as a blank node identifier.
pub uninterp spec fn bnode_id_ok(id: Seq<char>) -> bool;

/// Whether `sophia_term` accepts the text as a language tag.
pub uninterp spec fn lang_tag_ok(tag: Seq<char>) -> bool;

/// A term in the form the serializing engines take.
#[verifier::external_body]
pub struct SophiaTerm {
    term: BoxTerm,
}

/// The value that a serializing engine's term holds.
pub uninterp spec fn sophia_term_view(t: SophiaTerm) -> TermView;

/// Relies on `sophia_term::Term::new_iri`: the IRI term, or an error where the
/// text is not an IRI.
#[verifier::external_body]
fn sophia_iri(iri: &str) -> (r: Result<SophiaTerm, TermError>)
    ensures
        r is Ok <==> iri_ok(iri@),
        r matches Ok(t) ==> sophia_term_view(t) == TermView::Iri(iri@),
{
    BoxTerm::new_iri(iri).map(|term| SophiaTerm { term })
}

/// Relies on `sophia_term::Term::new_bnode`: the blank node, or an error where
/// the identifier is not valid.
#[verifier::external_body]
fn sophia_bnode(id: &str) -> (r: Result<SophiaTerm, TermError>)
    ensures
        r is Ok <==> bnode_id_ok(id@),
        r matches Ok(t) ==> sophia_term_view(t) == TermView::BlankNode(id@),
{
    BoxTerm::new_bnode(id).map(|term| SophiaTerm { term })
}

/// Relies on `sophia_term::Term::new_literal_lang`: the language-tagged
/// literal, or an error where the tag is not valid.
#[verifier::external_body]
fn sophia_lang_literal(txt: &str, lang: &str) -> (r: Result<SophiaTerm, TermError>)
    ensures
        r is Ok <==> lang_tag_ok(lang@),
        r matches Ok(t) ==> sophia_term_view(t) == TermView::LangLiteral(txt@, lang@),
{
    BoxTerm::new_literal_lang(txt, lang).map(|term| SophiaTerm { term })
}

/// Relies on `sophia_term::Term::new_iri` and `new_literal_dt`: the literal
/// with the given datatype, or an error where the datatype is not an IRI.
#[verifier::external_body]
fn sophia_dt_literal(txt: &str, datatype: &str) -> (r: Result<SophiaTerm, TermError>)
    ensures
        r is Ok <==> iri_ok(datatype@),
        r matches Ok(t) ==> sophia_term_view(t) == TermView::TypedLiteral(txt@, datatype@),
{
    BoxTerm::new_iri(datatype).and_then(|dt| BoxTerm::new_literal_dt(txt, dt)).map(
        |term| SophiaTerm { term },
    )
}

/// The datatype of a literal that has neither a datatype nor a language tag.
pub const XSD_STRING: &'static str = "http://www.w3.org/2001/XMLSchema#string";

/// Whether the serializing engines accept a term.
pub open spec fn term_ok(t: TermView) -> bool {
    match t {
        TermView::Iri(x) => iri_ok(x),
        TermView::BlankNode(x) => bnode_id_ok(x),
        TermView::SimpleLiteral(_) => iri_ok(XSD_STRING@),
        TermView::LangLiteral(_, l) => lang_tag_ok(l),
        TermView::TypedLiteral(_, d) => iri_ok(d),
    }
}

/// The term the serializing engines write for a term: a literal without
/// datatype or tag gets `xsd:string`.
pub open spec fn written_form(t: TermView) -> TermView {
    match t {
        TermView::SimpleLiteral(x) => TermView::TypedLiteral(x, XSD_STRING@),
        _ => t,
    }
}

/// Whether the serializing engines accept every term of the triple.
pub open spec fn triple_ok(t: TripleView) -> bool {
    term_ok(t.0) && term_ok(t.1) && term_ok(t.2)
}

/// Whether the serializing engines accept every term of the quad.
pub open spec fn quad_ok(q: QuadView) -> bool {
    term_ok(q.0) && term_ok(q.1) && term_ok(q.2) && match q.3 {
        Some(g) => term_ok(g),
        None => true,
    }
}

/// The triple the serializing engines write for a triple.
pub open spec fn written_triple(t: TripleView) -> TripleView {
    (written_form(t.0), written_form(t.1), written_form(t.2))
}

/// The quad the serializing engines write for a quad.
pub open spec fn written_quad(q: QuadView) -> QuadView {
    (written_form(q.0), written_form(q.1), written_form(q.2), match q.3 {
        Some(g) => Some(written_form(g)),
        None => None,
    })
}

/// The serializing engines' form of a term.
fn sophia_term(t: &Term) -> (r: Result<SophiaTerm, TermError>)
    ensures
        r is Ok <==> term_ok(t@),
        r matches Ok(x) ==> sophia_term_view(x) == written_form(t@),
{
    match t {
        Term::Iri(x) => sophia_iri(x.as_str()),
        Term::BlankNode(x) => sophia_bnode(x.as_str()),
        Term::SimpleLiteral(x) => sophia_dt_literal(x.as_str(), XSD_STRING),
        Term::LangLiteral(x, l) => sophia_lang_literal(x.as_str(), l.as_str()),
        Term::TypedLiteral(x, d) => sophia_dt_literal(x.as_str(), d.as_str()),
    }
}

/// A triple in the form the serializing engines take.
pub struct SophiaTriple(pub SophiaTerm, pub SophiaTerm, pub SophiaTerm);

/// A quad in the form the serializing engines take.
pub struct SophiaQuad(pub SophiaTerm, pub SophiaTerm, pub SophiaTerm, pub Option<SophiaTerm>);

/// The value of an engine triple.
pub open spec fn sophia_triple_view(t: SophiaTriple) -> TripleView {
    (sophia_term_view(t.0), sophia_term_view(t.1), sophia_term_view(t.2))
}

/// The value of an engine quad.
pub open spec fn sophia_quad_view(q: SophiaQuad) -> QuadView {
    (sophia_term_view(q.0), sophia_term_view(q.1), sophia_term_view(q.2), match q.3 {
        Some(g) => Some(sophia_term_view(g)),
        None => None,
    })
}

/// The values of some engine triples.
pub open spec fn sophia_triples_view(ts: Seq<SophiaTriple>) -> Seq<TripleView> {
    ts.map_values(|t: SophiaTriple| sophia_triple_view(t))
}

/// The values of some engine quads.
pub open spec fn sophia_quads_view(qs: Seq<SophiaQuad>) -> Seq<QuadView> {
    qs.map_values(|q: SophiaQuad| sophia_quad_view(q))
}

/// Whether the serializing engines accept every term of the triples.
pub open spec fn all_triples_ok(ts: Seq<Triple>) -> bool {
    forall|i: int| 0 <= i < ts.len() ==> triple_ok(#[trigger] ts[i]@)
}

/// Whether the serializing engines accept every term of the quads.
pub open spec fn all_quads_ok(qs: Seq<Quad>) -> bool {
    forall|i: int| 0 <= i < qs.len() ==> quad_ok(#[trigger] qs[i]@)
}

/// The triples the serializing engines write for some triples.
pub open spec fn written_triples(ts: Seq<Triple>) -> Seq<TripleView> {
    ts.map_values(|t: Triple| written_triple(t@))
}

/// The quads the serializing engines write for some quads.
pub open spec fn written_quads(qs: Seq<Quad>) -> Seq<QuadView> {
    qs.map_values(|q: Quad| written_quad(q@))
}

/// The IRI of `rdf:first`.
pub const RDF_FIRST: &'static str = "http://www.w3.org/1999/02/22-rdf-syntax-ns#first";

/// The IRI of `rdf:rest`.
pub const RDF_REST: &'static str = "http://www.w3.org/1999/02/22-rdf-syntax-ns#rest";

/// Whether triple `i` links a blank node to the rest of a list.
pub open spec fn is_blank_rest(ts: Seq<TripleView>, i: int) -> bool {
    ts[i].0 is BlankNode && ts[i].1 == TermView::Iri(RDF_REST@)
}

/// Whether some triple gives node `b` a first list item.
pub open spec fn has_first(ts: Seq<TripleView>, b: TermView) -> bool {
    exists|j: int| 0 <= j < ts.len() && ts[j].0 == b && ts[j].1 == TermView::Iri(RDF_FIRST@)
}

/// Whether the pretty writer can write the triples: every blank node with an
/// `rdf:rest` also has an `rdf:first` (the pretty writer's list detection
/// fails on such a node).
pub open spec fn pretty_writable(ts: Seq<TripleView>) -> bool {
    forall|i: int| 0 <= i < ts.len() && is_blank_rest(ts, i) ==> has_first(ts, #[trigger] ts[i].0)
}

/// Whether quad `i` links a blank node to the rest of a list.
pub open spec fn is_blank_rest_quad(qs: Seq<QuadView>, i: int) -> bool {
    qs[i].0 is BlankNode && qs[i].1 == TermView::Iri(RDF_REST@)
}

/// Whether some quad of graph `g` gives node `b` a first list item.
pub open spec fn has_first_in(qs: Seq<QuadView>, b: TermView, g: Option<TermView>) -> bool {
    exists|j: int|
        0 <= j < qs.len() && qs[j].0 == b && qs[j].1 == TermView::Iri(RDF_FIRST@) && qs[j].3 == g
}

/// Whether the pretty writer can write the quads: in each graph, every blank
/// node with an `rdf:rest` also has an `rdf:first`.
pub open spec fn pretty_writable_quads(qs: Seq<QuadView>) -> bool {
    forall|i: int|
        0 <= i < qs.len() && is_blank_rest_quad(qs, i) ==> has_first_in(qs, #[trigger] qs[i].0, qs[i].3)
}

/// Whether the term is the IRI `iri`.
fn is_iri(t: &Term, iri: &str) -> (r: bool)
    ensures
        r == (t@ == TermView::Iri(iri@)),
{
    match t {
        Term::Iri(x) => str_eq(x.as_str(), iri),
        _ => false,
    }
}

/// Whether the serializing engines write the two terms as the same term.
fn written_term_eq(a: &Term, b: &Term) -> (r: bool)
    ensures
        r == (written_form(a@) == written_form(b@)),
{
    match (a, b) {
        (Term::SimpleLiteral(x), Term::TypedLiteral(y, d)) => x.eq(y) && str_eq(d.as_str(), XSD_STRING),
        (Term::TypedLiteral(x, d), Term::SimpleLiteral(y)) => x.eq(y) && str_eq(d.as_str(), XSD_STRING),
        _ => {
            proof {
                lemma_same_term_view(*a, *b);
            }
            term_eq(a, b)
        },
    }
}

/// The graph name the serializing engines write for a graph name.
pub open spec fn written_graph(g: Option<Term>) -> Option<TermView> {
    match g {
        Some(t) => Some(written_form(t@)),
        None => None,
    }
}

/// Whether the serializing engines write the two graph names as the same one.
fn written_graph_eq(a: &Option<Term>, b: &Option<Term>) -> (r: bool)
    ensures
        r == (written_graph(*a) == written_graph(*b)),
{
    match (a, b) {
        (Some(x), Some(y)) => written_term_eq(x, y),
        (None, None) => true,
        _ => false,
    }
}

/// Whether the pretty writer can write the triples.
fn triples_pretty_writable(ts: &Vec<Triple>) -> (r: bool)
    ensures
        r == pretty_writable(written_triples(ts@)),
{
    let ghost w = written_triples(ts@);
    let mut i: usize = 0;
    while i < ts.len()
        invariant
            i <= ts@.len(),
            w == written_triples(ts@),
            forall|k: int| 0 <= k < i && is_blank_rest(w, k) ==> has_first(w, #[trigger] w[k].0),
        decreases ts.len() - i,
    {
        let t = &ts[i];
        if matches!(t.subject, Term::BlankNode(_)) && is_iri(&t.predicate, RDF_REST) {
            let mut j: usize = 0;
            let mut found = false;
            while j < ts.len() && !found
                invariant
                    j <= ts@.len(),
                    i < ts@.len(),
                    w == written_triples(ts@),
                    w.len() == ts@.len(),
                    t == ts@[i as int],
                    t.subject is BlankNode,
                    found ==> has_first(w, w[i as int].0),
                    !found ==> forall|m: int| 0 <= m < j ==> !(#[trigger] w[m].0 == w[i as int].0 && w[m].1
                        == TermView::Iri(RDF_FIRST@)),
                decreases ts.len() - j,
            {
                let u = &ts[j];
                proof {
                    lemma_same_term_view(u.subject, t.subject);
                }
                if term_eq(&u.subject, &t.subject) && is_iri(&u.predicate, RDF_FIRST) {
                    assert(w[j as int].0 == w[i as int].0);
                    found = true;
                }
                j = j + 1;
            }
            if !found {
                assert(is_blank_rest(w, i as int));
                assert(!has_first(w, w[i as int].0));
                return false;
            }
        }
        i = i + 1;
    }
    true
}

/// Whether the pretty writer can write the quads.
fn quads_pretty_writable(qs: &Vec<Quad>) -> (r: bool)
    ensures
        r == pretty_writable_quads(written_quads(qs@)),
{
    let ghost w = written_quads(qs@);
    let mut i: usize = 0;
    while i < qs.len()
        invariant
            i <= qs@.len(),
            w == written_quads(qs@),
            forall|k: int| 0 <= k < i && is_blank_rest_quad(w, k) ==> has_first_in(w, #[trigger] w[k].0, w[k].3),
        decreases qs.len() - i,
    {
        let q = &qs[i];
        if matches!(q.subject, Term::BlankNode(_)) && is_iri(&q.predicate, RDF_REST) {
            let mut j: usize = 0;
            let mut found = false;
            while j < qs.len() && !found
                invariant
                    j <= qs@.len(),
                    i < qs@.len(),
                    w == written_quads(qs@),
                    w.len() == qs@.len(),
                    q == qs@[i as int],
                    q.subject is BlankNode,
                    found ==> has_first_in(w, w[i as int].0, w[i as int].3),
                    !found ==> forall|m: int| 0 <= m < j ==> !(#[trigger] w[m].0 == w[i as int].0 && w[m].1
                        == TermView::Iri(RDF_FIRST@) && w[m].3 == w[i as int].3),
                decreases qs.len() - j,
            {
                let u = &qs[j];
                proof {
                    lemma_same_term_view(u.subject, q.subject);
                }
                if term_eq(&u.subject, &q.subject) && is_iri(&u.predicate, RDF_FIRST) && written_graph_eq(
                    &u.graph_name,
                    &q.graph_name,
                ) {
                    assert(w[j as int].0 == w[i as int].0);
                    assert(w[j as int].3 == w[i as int].3);
                    found = true;
                }
                j = j + 1;
            }
            if !found {
                assert(is_blank_rest_quad(w, i as int));
                assert(!has_first_in(w, w[i as int].0, w[i as int].3));
                return false;
            }
        }
        i = i + 1;
    }
    true
}

/// The serializing engines' form of some triples, or the error of the first
/// term they refuse.
fn sophia_triples(ts: &Vec<Triple>) -> (r: Result<Vec<SophiaTriple>, TermError>)
    ensures
        r is Ok <==> all_triples_ok(ts@),
        r matches Ok(v) ==> sophia_triples_view(v@) == written_triples(ts@),
{
    let mut out: Vec<SophiaTriple> = Vec::new();
    let mut i: usize = 0;
    while i < ts.len()
        invariant
            i <= ts@.len(),
            all_triples_ok(ts@.subrange(0, i as int)),
            sophia_triples_view(out@) == written_triples(ts@.subrange(0, i as int)),
        decreases ts.len() - i,
    {
        let t = &ts[i];
        let s = match sophia_term(&t.subject) {
            Ok(x) => x,
            Err(e) => {
                assert(!triple_ok(ts@[i as int]@));
                return Err(e);
            },
        };
        let p = match sophia_term(&t.predicate) {
            Ok(x) => x,
            Err(e) => {
                assert(!triple_ok(ts@[i as int]@));
                return Err(e);
            },
        };
        let o = match sophia_term(&t.object) {
            Ok(x) => x,
            Err(e) => {
                assert(!triple_ok(ts@[i as int]@));
                return Err(e);
            },
        };
        let ghost before = out@;
        out.push(SophiaTriple(s, p, o));
        assert(sophia_triple_view(out@.last()) == written_triple(ts@[i as int]@));
        assert(sophia_triples_view(out@) =~= sophia_triples_view(before).push(
            written_triple(ts@[i as int]@),
        ));
        assert(ts@.subrange(0, i + 1) =~= ts@.subrange(0, i as int).push(ts@[i as int]));
        assert(written_triples(ts@.subrange(0, i + 1)) =~= written_triples(
            ts@.subrange(0, i as int),
        ).push(written_triple(ts@[i as int]@)));
        i = i + 1;
    }
    assert(ts@.subrange(0, ts@.len() as int) =~= ts@);
    Ok(out)
}

/// The serializing engines' form of some quads, or the error of the first
/// term they refuse.
fn sophia_quads(qs: &Vec<Quad>) -> (r: Result<Vec<SophiaQuad>, TermError>)
    ensures
        r is Ok <==> all_quads_ok(qs@),
        r matches Ok(v) ==> sophia_quads_view(v@) == written_quads(qs@),
{
    let mut out: Vec<SophiaQuad> = Vec::new();
    let mut i: usize = 0;
    while i < qs.len()
        invariant
            i <= qs@.len(),
            all_quads_ok(qs@.subrange(0, i as int)),
            sophia_quads_view(out@) == written_quads(qs@.subrange(0, i as int)),
        decreases qs.len() - i,
    {
        let q = &qs[i];
        let s = match sophia_term(&q.subject) {
            Ok(x) => x,
            Err(e) => {
                assert(!quad_ok(qs@[i as int]@));
                return Err(e);
            },
        };
        let p = match sophia_term(&q.predicate) {
            Ok(x) => x,
            Err(e) => {
                assert(!quad_ok(qs@[i as int]@));
                return Err(e);
            },
        };
        let o = match sophia_term(&q.object) {
            Ok(x) => x,
            Err(e) => {
                assert(!quad_ok(qs@[i as int]@));
                return Err(e);
            },
        };
        let g = match &q.graph_name {
            Some(g) => match sophia_term(g) {
                Ok(x) => Some(x),
                Err(e) => {
                assert(!quad_ok(qs@[i as int]@));
                return Err(e);
            },
            },
            None => None,
        };
        let ghost before = out@;
        out.push(SophiaQuad(s, p, o, g));
        assert(sophia_quad_view(out@.last()) == written_quad(qs@[i as int]@));
        assert(sophia_quads_view(out@) =~= sophia_quads_view(before).push(
            written_quad(qs@[i as int]@),
        ));
        assert(qs@.subrange(0, i + 1) =~= qs@.subrange(0, i as int).push(qs@[i as int]));
        assert(written_quads(qs@.subrange(0, i + 1)) =~= written_quads(
            qs@.subrange(0, i as int),
        ).push(written_quad(qs@[i as int]@)));
        i = i + 1;
    }
    assert(qs@.subrange(0, qs@.len() as int) =~= qs@);
    Ok(out)
}

/// The bytes a Turtle (or TriG) serializer has written.
pub uninterp spec fn turtle_written(s: TurtleSerializer<Vec<u8>>) -> Seq<u8>;

/// The options a Turtle (or TriG) serializer writes with.
pub uninterp spec fn turtle_serializer_options(s: TurtleSerializer<Vec<u8>>) -> TurtleOptions;

/// The bytes an N-Triples serializer has written.
pub uninterp spec fn nt_written(s: NtSerializer<Vec<u8>>) -> Seq<u8>;

/// The bytes an N-Quads serializer has written.
pub uninterp spec fn nq_written(s: NqSerializer<Vec<u8>>) -> Seq<u8>;

/// The bytes an RDF/XML serializer has written.
pub uninterp spec fn rdf_xml_written(s: RdfXmlSerializer<Vec<u8>>) -> Seq<u8>;

/// The document the streaming (not pretty) Turtle writer makes of the triples.
pub uninterp spec fn turtle_text(ts: Seq<TripleView>) -> Seq<u8>;

/// The document the streaming (not pretty) TriG writer makes of the quads.
pub uninterp spec fn trig_text(qs: Seq<QuadView>) -> Seq<u8>;

/// The document the N-Triples writer makes of the triples.
pub uninterp spec fn ntriples_text(ts: Seq<TripleView>) -> Seq<u8>;

/// The document the N-Quads writer makes of the quads.
pub uninterp spec fn nquads_text(qs: Seq<QuadView>) -> Seq<u8>;

/// The document the RDF/XML writer makes of the triples.
pub uninterp spec fn rdf_xml_text(ts: Seq<TripleView>) -> Seq<u8>;

/// Whether `b` is `a` followed by more bytes.
pub open spec fn extends(b: Seq<u8>, a: Seq<u8>) -> bool {
    a.len() <= b.len() && b.subrange(0, a.len() as int) == a
}

/// Relies on `TurtleSerializer::new_with_config`, `TurtleConfig::with_pretty` and
/// `with_indentation`: a Turtle or TriG serializer writing to an empty buffer
/// with the given options (the indentation is made of spaces only, as
/// `with_indentation` asks).
#[verifier::external_body]
fn new_turtle_serializer(o: TurtleOptions) -> (r: TurtleSerializer<Vec<u8>>)
    ensures
        turtle_written(r) == Seq::<u8>::empty(),
        turtle_serializer_options(r) == o,
{
    let config = TurtleConfig::new().with_pretty(o.pretty).with_indentation(" ".repeat(o.indentation));
    TurtleSerializer::new_with_config(Vec::new(), config)
}

/// Relies on `NtSerializer::new`: an N-Triples serializer with the default
/// options (non-ASCII characters written as they are), writing to an empty
/// buffer.
#[verifier::external_body]
fn new_nt_serializer() -> (r: NtSerializer<Vec<u8>>)
    ensures
        nt_written(r) == Seq::<u8>::empty(),
{
    NtSerializer::new(Vec::new())
}

/// Relies on `NqSerializer::new`: an N-Quads serializer with the default
/// options, writing to an empty buffer.
#[verifier::external_body]
fn new_nq_serializer() -> (r: NqSerializer<Vec<u8>>)
    ensures
        nq_written(r) == Seq::<u8>::empty(),
{
    NqSerializer::new(Vec::new())
}

/// Relies on `RdfXmlSerializer::new`: an RDF/XML serializer writing to an empty
/// buffer.
#[verifier::external_body]
fn new_rdf_xml_serializer() -> (r: RdfXmlSerializer<Vec<u8>>)
    ensures
        rdf_xml_written(r) == Seq::<u8>::empty(),
{
    RdfXmlSerializer::new(Vec::new())
}

/// Relies on `TripleSerializer::serialize_graph` of the Turtle serializer: it
/// appends to its in-memory buffer, which does not fail; pretty output ends
/// with a newline and panics on a blank node with `rdf:rest` but no
/// `rdf:first`; in streaming mode what it appends is the document of
/// the triples. Pretty output walks hash maps, so its order is not fixed.
#[verifier::external_body]
fn turtle_write_triples(s: &mut TurtleSerializer<Vec<u8>>, ts: &Vec<SophiaTriple>) -> (r: Result<(), std::io::Error>)
    requires
        turtle_serializer_options(*old(s)).pretty ==> pretty_writable(sophia_triples_view(ts@)),
    ensures
        r is Ok,
        turtle_serializer_options(*old(s)).pretty ==> turtle_written(*final(s)).len() > turtle_written(*old(s)).len(),
        turtle_serializer_options(*final(s)) == turtle_serializer_options(*old(s)),
        extends(turtle_written(*final(s)), turtle_written(*old(s))),
        r is Ok && !turtle_serializer_options(*old(s)).pretty ==> turtle_written(*final(s))
            == turtle_written(*old(s)) + turtle_text(sophia_triples_view(ts@)),
{
    let g: Vec<[BoxTerm; 3]> = ts.iter().map(|t| [t.0.term.clone(), t.1.term.clone(), t.2.term.clone()]).collect();
    s.serialize_graph(&g).map(|_| ()).map_err(|e| e.unwrap_sink_error())
}

/// Relies on `TripleSerializer::serialize_graph` of the N-Triples serializer:
/// it appends the document of the triples to its in-memory buffer, which does
/// not fail.
#[verifier::external_body]
fn nt_write_triples(s: &mut NtSerializer<Vec<u8>>, ts: &Vec<SophiaTriple>) -> (r: Result<(), std::io::Error>)
    ensures
        r is Ok,
        extends(nt_written(*final(s)), nt_written(*old(s))),
        r is Ok ==> nt_written(*final(s)) == nt_written(*old(s)) + ntriples_text(sophia_triples_view(ts@)),
{
    let g: Vec<[BoxTerm; 3]> = ts.iter().map(|t| [t.0.term.clone(), t.1.term.clone(), t.2.term.clone()]).collect();
    s.serialize_graph(&g).map(|_| ()).map_err(|e| e.unwrap_sink_error())
}

/// Relies on `TripleSerializer::serialize_graph` of the RDF/XML serializer: it
/// appends the document of the triples to its in-memory buffer, which does not
/// fail.
#[verifier::external_body]
fn rdf_xml_write_triples(s: &mut RdfXmlSerializer<Vec<u8>>, ts: &Vec<SophiaTriple>) -> (r: Result<(), std::io::Error>)
    ensures
        r is Ok,
        extends(rdf_xml_written(*final(s)), rdf_xml_written(*old(s))),
        r is Ok ==> rdf_xml_written(*final(s)) == rdf_xml_written(*old(s)) + rdf_xml_text(sophia_triples_view(ts@)),
{
    let g: Vec<[BoxTerm; 3]> = ts.iter().map(|t| [t.0.term.clone(), t.1.term.clone(), t.2.term.clone()]).collect();
    s.serialize_graph(&g).map(|_| ()).map_err(|e| e.unwrap_sink_error())
}

/// Relies on `QuadSerializer::serialize_dataset` of the TriG serializer: it
/// appends to its in-memory buffer, which does not fail; pretty output ends
/// with a newline and panics on a blank node with `rdf:rest` but no
/// `rdf:first` in its graph; in streaming mode what it appends is the document of
/// the quads. Pretty output walks hash maps, so its order is not fixed.
#[verifier::external_body]
fn trig_write_quads(s: &mut TurtleSerializer<Vec<u8>>, qs: &Vec<SophiaQuad>) -> (r: Result<(), std::io::Error>)
    requires
        turtle_serializer_options(*old(s)).pretty ==> pretty_writable_quads(sophia_quads_view(qs@)),
    ensures
        r is Ok,
        turtle_serializer_options(*old(s)).pretty ==> turtle_written(*final(s)).len() > turtle_written(*old(s)).len(),
        turtle_serializer_options(*final(s)) == turtle_serializer_options(*old(s)),
        extends(turtle_written(*final(s)), turtle_written(*old(s))),
        r is Ok && !turtle_serializer_options(*old(s)).pretty ==> turtle_written(*final(s))
            == turtle_written(*old(s)) + trig_text(sophia_quads_view(qs@)),
{
    let d: Vec<([BoxTerm; 3], Option<BoxTerm>)> = qs.iter().map(|q| ([q.0.term.clone(), q.1.term.clone(), q.2.term.clone()], q.3.as_ref().map(|g| g.term.clone()))).collect();
    s.serialize_dataset(&d).map(|_| ()).map_err(|e| e.unwrap_sink_error())
}

/// Relies on `QuadSerializer::serialize_dataset` of the N-Quads serializer: it
/// appends the document of the quads to its in-memory buffer, which does not
/// fail.
#[verifier::external_body]
fn nq_write_quads(s: &mut NqSerializer<Vec<u8>>, qs: &Vec<SophiaQuad>) -> (r: Result<(), std::io::Error>)
    ensures
        r is Ok,
        extends(nq_written(*final(s)), nq_written(*old(s))),
        r is Ok ==> nq_written(*final(s)) == nq_written(*old(s)) + nquads_text(sophia_quads_view(qs@)),
{
    let d: Vec<([BoxTerm; 3], Option<BoxTerm>)> = qs.iter().map(|q| ([q.0.term.clone(), q.1.term.clone(), q.2.term.clone()], q.3.as_ref().map(|g| g.term.clone()))).collect();
    s.serialize_dataset(&d).map(|_| ()).map_err(|e| e.unwrap_sink_error())
}

/// Relies on `TurtleSerializer::config` and `TurtleConfig::pretty`: whether the
/// serializer writes pretty output.
#[verifier::external_body]
fn turtle_is_pretty(s: &TurtleSerializer<Vec<u8>>) -> (r: bool)
    ensures
        r == turtle_serializer_options(*s).pretty,
{
    s.config().pretty()
}

/// Relies on `Stringifier::as_utf8` of the Turtle serializer: what it wrote.
#[verifier::external_body]
fn turtle_output(s: &TurtleSerializer<Vec<u8>>) -> (r: Vec<u8>)
    ensures
        r@ == turtle_written(*s),
{
    s.as_utf8().to_vec()
}

/// Relies on `Stringifier::as_utf8` of the N-Triples serializer: what it wrote.
#[verifier::external_body]
fn nt_output(s: &NtSerializer<Vec<u8>>) -> (r: Vec<u8>)
    ensures
        r@ == nt_written(*s),
{
    s.as_utf8().to_vec()
}

/// Relies on `Stringifier::as_utf8` of the N-Quads serializer: what it wrote.
#[verifier::external_body]
fn nq_output(s: &NqSerializer<Vec<u8>>) -> (r: Vec<u8>)
    ensures
        r@ == nq_written(*s),
{
    s.as_utf8().to_vec()
}

/// Relies on `Stringifier::as_utf8` of the RDF/XML serializer: what it wrote.
#[verifier::external_body]
fn rdf_xml_output(s: &RdfXmlSerializer<Vec<u8>>) -> (r: Vec<u8>)
    ensures
        r@ == rdf_xml_written(*s),
{
    s.as_utf8().to_vec()
}

/// Why a serialization failed.
#[derive(Debug)]
pub enum DynSynSerializeError {
    /// The writer failed.
    Io(std::io::Error),
    /// A term cannot be written: an IRI, identifier, tag or datatype that is
    /// not valid.
    InvalidTerm(TermError),
    /// Pretty output was asked for, and a blank node has an `rdf:rest` but no
    /// `rdf:first` (in its graph), which the pretty writer cannot handle.
    UnwritableList,
}

/// Optional formatting options of the triple syntaxes. Only Turtle has any;
/// N-Triples and RDF/XML are written with their engines' defaults.
#[derive(Clone, Copy, Debug, PartialEq, Eq, Structural)]
pub struct TripleSerializerConfig {
    pub turtle: Option<TurtleOptions>,
}

/// Optional formatting options of the quad syntaxes. Only TriG has any; N-Quads
/// is written with its engine's defaults.
#[derive(Clone, Copy, Debug, PartialEq, Eq, Structural)]
pub struct QuadSerializerConfig {
    pub trig: Option<TurtleOptions>,
}

/// The options a triple serializer runs with.
#[derive(Clone, Copy, Debug, PartialEq, Eq, Structural)]
pub enum TripleSyntaxConfig {
    NTriples,
    Turtle(TurtleOptions),
    RdfXml,
}

/// The options a quad serializer runs with.
#[derive(Clone, Copy, Debug, PartialEq, Eq, Structural)]
pub enum QuadSyntaxConfig {
    NQuads,
    TriG(TurtleOptions),
}

/// The options a triple serializer of `s` uses under the registered options:
/// the registered ones, else the engine's defaults.
pub open spec fn triple_config_for(c: TripleSerializerConfig, s: RdfSyntax) -> Option<TripleSyntaxConfig> {
    match s {
        RdfSyntax::NTriples => Some(TripleSyntaxConfig::NTriples),
        RdfSyntax::Turtle => Some(TripleSyntaxConfig::Turtle(match c.turtle {
            Some(o) => o,
            None => default_turtle_options(),
        })),
        RdfSyntax::RdfXml => Some(TripleSyntaxConfig::RdfXml),
        _ => None,
    }
}

/// The options a quad serializer of `s` uses under the registered options:
/// the registered ones, else the engine's defaults.
pub open spec fn quad_config_for(c: QuadSerializerConfig, s: RdfSyntax) -> Option<QuadSyntaxConfig> {
    match s {
        RdfSyntax::NQuads => Some(QuadSyntaxConfig::NQuads),
        RdfSyntax::TriG => Some(QuadSyntaxConfig::TriG(match c.trig {
            Some(o) => o,
            None => default_turtle_options(),
        })),
        _ => None,
    }
}

/// Whether the registered options hold a value for the triple syntax.
pub open spec fn has_triple_config(c: TripleSerializerConfig, s: RdfSyntax) -> bool {
    s == RdfSyntax::Turtle && c.turtle is Some
}

/// Whether the registered options hold a value for the quad syntax.
pub open spec fn has_quad_config(c: QuadSerializerConfig, s: RdfSyntax) -> bool {
    s == RdfSyntax::TriG && c.trig is Some
}

/// The syntax that triple options are for.
pub open spec fn triple_config_syntax(c: TripleSyntaxConfig) -> RdfSyntax {
    match c {
        TripleSyntaxConfig::NTriples => RdfSyntax::NTriples,
        TripleSyntaxConfig::Turtle(_) => RdfSyntax::Turtle,
        TripleSyntaxConfig::RdfXml => RdfSyntax::RdfXml,
    }
}

/// The syntax that quad options are for.
pub open spec fn quad_config_syntax(c: QuadSyntaxConfig) -> RdfSyntax {
    match c {
        QuadSyntaxConfig::NQuads => RdfSyntax::NQuads,
        QuadSyntaxConfig::TriG(_) => RdfSyntax::TriG,
    }
}

/// The document a triple serializer with the given options appends for the
/// triples, where that document is fixed (not pretty).
pub open spec fn triples_text(c: TripleSyntaxConfig, ts: Seq<TripleView>) -> Option<Seq<u8>> {
    match c {
        TripleSyntaxConfig::NTriples => Some(ntriples_text(ts)),
        TripleSyntaxConfig::Turtle(o) => if o.pretty {
            None
        } else {
            Some(turtle_text(ts))
        },
        TripleSyntaxConfig::RdfXml => Some(rdf_xml_text(ts)),
    }
}

/// The document a quad serializer with the given options appends for the
/// quads, where that document is fixed (not pretty).
pub open spec fn quads_text(c: QuadSyntaxConfig, qs: Seq<QuadView>) -> Option<Seq<u8>> {
    match c {
        QuadSyntaxConfig::NQuads => Some(nquads_text(qs)),
        QuadSyntaxConfig::TriG(o) => if o.pretty {
            None
        } else {
            Some(trig_text(qs))
        },
    }
}

/// Whether a triple serializer with the given options writes pretty output.
pub open spec fn triple_config_pretty(c: TripleSyntaxConfig) -> bool {
    c matches TripleSyntaxConfig::Turtle(o) && o.pretty
}

/// Whether a quad serializer with the given options writes pretty output.
pub open spec fn quad_config_pretty(c: QuadSyntaxConfig) -> bool {
    c matches QuadSyntaxConfig::TriG(o) && o.pretty
}

/// The engine behind a triple serializer.
pub enum InnerTripleSerializer {
    NTriples(NtSerializer<Vec<u8>>),
    Turtle(TurtleSerializer<Vec<u8>>),
    RdfXml(RdfXmlSerializer<Vec<u8>>),
}

/// The engine behind a quad serializer.
pub enum InnerQuadSerializer {
    NQuads(NqSerializer<Vec<u8>>),
    Trig(TurtleSerializer<Vec<u8>>),
}

/// A triple serializer for a syntax chosen at run time, writing to memory.
pub struct DynSynTripleSerializer {
    inner_serializer: InnerTripleSerializer,
    configured: bool,
}

impl DynSynTripleSerializer {
    /// The options (and so the syntax) the serializer writes with.
    pub closed spec fn config(&self) -> TripleSyntaxConfig {
        match self.inner_serializer {
            InnerTripleSerializer::NTriples(_) => TripleSyntaxConfig::NTriples,
            InnerTripleSerializer::Turtle(s) => TripleSyntaxConfig::Turtle(turtle_serializer_options(s)),
            InnerTripleSerializer::RdfXml(_) => TripleSyntaxConfig::RdfXml,
        }
    }

    /// The syntax the serializer writes.
    pub open spec fn syntax(&self) -> RdfSyntax {
        triple_config_syntax(self.config())
    }

    /// The bytes written so far.
    pub closed spec fn written(&self) -> Seq<u8> {
        match self.inner_serializer {
            InnerTripleSerializer::NTriples(s) => nt_written(s),
            InnerTripleSerializer::Turtle(s) => turtle_written(s),
            InnerTripleSerializer::RdfXml(s) => rdf_xml_written(s),
        }
    }

    /// Whether the serializer writes with registered options rather than the
    /// engine's defaults.
    pub closed spec fn is_configured(&self) -> bool {
        self.configured
    }

    /// A serializer with the given options, nothing written yet.
    pub fn new(config: TripleSyntaxConfig, configured: bool) -> (r: DynSynTripleSerializer)
        ensures
            r.config() == config,
            r.written() == Seq::<u8>::empty(),
            r.is_configured() == configured,
    {
        let inner_serializer = match config {
            TripleSyntaxConfig::NTriples => InnerTripleSerializer::NTriples(new_nt_serializer()),
            TripleSyntaxConfig::Turtle(o) => InnerTripleSerializer::Turtle(new_turtle_serializer(o)),
            TripleSyntaxConfig::RdfXml => InnerTripleSerializer::RdfXml(new_rdf_xml_serializer()),
        };
        DynSynTripleSerializer { inner_serializer, configured }
    }

    /// Writes the triples, in order. Fails, having written nothing, exactly
    /// where a term cannot be written, or where pretty output is asked for and
    /// a list node cannot be written; succeeds otherwise.
    pub fn serialize_triples(&mut self, triples: &Vec<Triple>) -> (r: Result<(), DynSynSerializeError>)
        ensures
            final(self).config() == old(self).config(),
            final(self).is_configured() == old(self).is_configured(),
            extends(final(self).written(), old(self).written()),
            r matches Err(DynSynSerializeError::InvalidTerm(_)) <==> !all_triples_ok(triples@),
            r matches Err(DynSynSerializeError::UnwritableList) <==> all_triples_ok(triples@) && triple_config_pretty(
                old(self).config(),
            ) && !pretty_writable(written_triples(triples@)),
            r is Err ==> final(self).written() == old(self).written(),
            all_triples_ok(triples@) && (triple_config_pretty(old(self).config()) ==> pretty_writable(written_triples(triples@))) ==> r is Ok,
            r is Ok && triple_config_pretty(old(self).config()) ==> final(self).written().len() > old(
                self,
            ).written().len(),
            r is Ok ==> match triples_text(old(self).config(), written_triples(triples@)) {
                Some(text) => final(self).written() == old(self).written() + text,
                None => true,
            },
    {
        let ts = match sophia_triples(triples) {
            Ok(ts) => ts,
            Err(e) => {
                assert(self.written().subrange(0, self.written().len() as int) =~= self.written());
                return Err(DynSynSerializeError::InvalidTerm(e));
            },
        };
        let pretty = match &self.inner_serializer {
            InnerTripleSerializer::Turtle(s) => turtle_is_pretty(s),
            _ => false,
        };
        if pretty && !triples_pretty_writable(triples) {
            assert(self.written().subrange(0, self.written().len() as int) =~= self.written());
            return Err(DynSynSerializeError::UnwritableList);
        }
        let written = match &mut self.inner_serializer {
            InnerTripleSerializer::NTriples(s) => nt_write_triples(s, &ts),
            InnerTripleSerializer::Turtle(s) => turtle_write_triples(s, &ts),
            InnerTripleSerializer::RdfXml(s) => rdf_xml_write_triples(s, &ts),
        };
        match written {
            Ok(()) => Ok(()),
            Err(e) => Err(DynSynSerializeError::Io(e)),
        }
    }

    /// The bytes written so far.
    pub fn as_utf8(&self) -> (r: Vec<u8>)
        ensures
            r@ == self.written(),
    {
        match &self.inner_serializer {
            InnerTripleSerializer::NTriples(s) => nt_output(s),
            InnerTripleSerializer::Turtle(s) => turtle_output(s),
            InnerTripleSerializer::RdfXml(s) => rdf_xml_output(s),
        }
    }
}

/// A quad serializer for a syntax chosen at run time, writing to memory.
pub struct DynSynQuadSerializer {
    inner_serializer: InnerQuadSerializer,
    configured: bool,
}

impl DynSynQuadSerializer {
    /// The options (and so the syntax) the serializer writes with.
    pub closed spec fn config(&self) -> QuadSyntaxConfig {
        match self.inner_serializer {
            InnerQuadSerializer::NQuads(_) => QuadSyntaxConfig::NQuads,
            InnerQuadSerializer::Trig(s) => QuadSyntaxConfig::TriG(turtle_serializer_options(s)),
        }
    }

    /// The syntax the serializer writes.
    pub open spec fn syntax(&self) -> RdfSyntax {
        quad_config_syntax(self.config())
    }

    /// The bytes written so far.
    pub closed spec fn written(&self) -> Seq<u8> {
        match self.inner_serializer {
            InnerQuadSerializer::NQuads(s) => nq_written(s),
            InnerQuadSerializer::Trig(s) => turtle_written(s),
        }
    }

    /// Whether the serializer writes with registered options rather than the
    /// engine's defaults.
    pub closed spec fn is_configured(&self) -> bool {
        self.configured
    }

    /// A serializer with the given options, nothing written yet.
    pub fn new(config: QuadSyntaxConfig, configured: bool) -> (r: DynSynQuadSerializer)
        ensures
            r.config() == config,
            r.written() == Seq::<u8>::empty(),
            r.is_configured() == configured,
    {
        let inner_serializer = match config {
            QuadSyntaxConfig::NQuads => InnerQuadSerializer::NQuads(new_nq_serializer()),
            QuadSyntaxConfig::TriG(o) => InnerQuadSerializer::Trig(new_turtle_serializer(o)),
        };
        DynSynQuadSerializer { inner_serializer, configured }
    }

    /// Writes the quads, in order. Fails, having written nothing, exactly where
    /// a term cannot be written, or where pretty output is asked for and a
    /// list node cannot be written; succeeds otherwise.
    pub fn serialize_quads(&mut self, quads: &Vec<Quad>) -> (r: Result<(), DynSynSerializeError>)
        ensures
            final(self).config() == old(self).config(),
            final(self).is_configured() == old(self).is_configured(),
            extends(final(self).written(), old(self).written()),
            r matches Err(DynSynSerializeError::InvalidTerm(_)) <==> !all_quads_ok(quads@),
            r matches Err(DynSynSerializeError::UnwritableList) <==> all_quads_ok(quads@) && quad_config_pretty(
                old(self).config(),
            ) && !pretty_writable_quads(written_quads(quads@)),
            r is Err ==> final(self).written() == old(self).written(),
            all_quads_ok(quads@) && (quad_config_pretty(old(self).config()) ==> pretty_writable_quads(written_quads(quads@))) ==> r is Ok,
            r is Ok && quad_config_pretty(old(self).config()) ==> final(self).written().len() > old(
                self,
            ).written().len(),
            r is Ok ==> match quads_text(old(self).config(), written_quads(quads@)) {
                Some(text) => final(self).written() == old(self).written() + text,
                None => true,
            },
    {
        let qs = match sophia_quads(quads) {
            Ok(qs) => qs,
            Err(e) => {
                assert(self.written().subrange(0, self.written().len() as int) =~= self.written());
                return Err(DynSynSerializeError::InvalidTerm(e));
            },
        };
        let pretty = match &self.inner_serializer {
            InnerQuadSerializer::Trig(s) => turtle_is_pretty(s),
            _ => false,
        };
        if pretty && !quads_pretty_writable(quads) {
            assert(self.written().subrange(0, self.written().len() as int) =~= self.written());
            return Err(DynSynSerializeError::UnwritableList);
        }
        let written = match &mut self.inner_serializer {
            InnerQuadSerializer::NQuads(s) => nq_write_quads(s, &qs),
            InnerQuadSerializer::Trig(s) => trig_write_quads(s, &qs),
        };
        match written {
            Ok(()) => Ok(()),
            Err(e) => Err(DynSynSerializeError::Io(e)),
        }
    }

    /// The bytes written so far.
    pub fn as_utf8(&self) -> (r: Vec<u8>)
        ensures
            r@ == self.written(),
    {
        match &self.inner_serializer {
            InnerQuadSerializer::NQuads(s) => nq_output(s),
            InnerQuadSerializer::Trig(s) => turtle_output(s),
        }
    }
}

/// Makes triple serializers, each with the options registered for its syntax.
pub struct DynSynTripleSerializerFactory {
    serializer_config_map: TripleSerializerConfig,
}

impl DynSynTripleSerializerFactory {
    /// The options the factory was made with.
    pub closed spec fn config(&self) -> TripleSerializerConfig {
        self.serializer_config_map
    }

    /// A factory with the given options; none means defaults for every syntax.
    pub fn new(serializer_config_map: Option<TripleSerializerConfig>) -> (r: DynSynTripleSerializerFactory)
        ensures
            r.config() == match serializer_config_map {
                Some(c) => c,
                None => TripleSerializerConfig { turtle: None },
            },
    {
        let serializer_config_map = match serializer_config_map {
            Some(c) => c,
            None => TripleSerializerConfig { turtle: None },
        };
        DynSynTripleSerializerFactory { serializer_config_map }
    }

    /// The options a serializer of `syntax_` uses: the registered ones, else
    /// the engine's defaults. None where no engine writes the syntax.
    pub fn get_config(&self, syntax_: RdfSyntax) -> (r: Option<TripleSyntaxConfig>)
        ensures
            r == triple_config_for(self.config(), syntax_),
            r is Some <==> has_triple_serializer(syntax_),
    {
        match syntax_ {
            RdfSyntax::NTriples => Some(TripleSyntaxConfig::NTriples),
            RdfSyntax::Turtle => Some(TripleSyntaxConfig::Turtle(
                match self.serializer_config_map.turtle {
                    Some(o) => o,
                    None => TurtleOptions::default(),
                },
            )),
            RdfSyntax::RdfXml => Some(TripleSyntaxConfig::RdfXml),
            _ => None,
        }
    }

    /// A serializer for `syntax_` with the options of `get_config`, or an error
    /// where no engine writes the syntax.
    pub fn try_new_stringifier(&self, syntax_: RdfSyntax) -> (r: Result<DynSynTripleSerializer, UnKnownSyntaxError>)
        ensures
            r is Ok <==> has_triple_serializer(syntax_),
            r matches Ok(s) ==> Some(s.config()) == triple_config_for(self.config(), syntax_)
                && s.written() == Seq::<u8>::empty() && s.is_configured() == has_triple_config(
                self.config(),
                syntax_,
            ),
            r matches Err(e) ==> e.0 == syntax_,
    {
        let configured = match syntax_ {
            RdfSyntax::Turtle => self.serializer_config_map.turtle.is_some(),
            _ => false,
        };
        match self.get_config(syntax_) {
            Some(c) => Ok(DynSynTripleSerializer::new(c, configured)),
            None => Err(UnKnownSyntaxError(syntax_)),
        }
    }
}

/// Makes quad serializers, each with the options registered for its syntax.
pub struct DynSynQuadSerializerFactory {
    serializer_config_map: QuadSerializerConfig,
}

impl DynSynQuadSerializerFactory {
    /// The options the factory was made with.
    pub closed spec fn config(&self) -> QuadSerializerConfig {
        self.serializer_config_map
    }

    /// A factory with the given options; none means defaults for every syntax.
    pub fn new(serializer_config_map: Option<QuadSerializerConfig>) -> (r: DynSynQuadSerializerFactory)
        ensures
            r.config() == match serializer_config_map {
                Some(c) => c,
                None => QuadSerializerConfig { trig: None },
            },
    {
        let serializer_config_map = match serializer_config_map {
            Some(c) => c,
            None => QuadSerializerConfig { trig: None },
        };
        DynSynQuadSerializerFactory { serializer_config_map }
    }

    /// The options a serializer of `syntax_` uses: the registered ones, else
    /// the engine's defaults. None where no engine writes the syntax.
    pub fn get_config(&self, syntax_: RdfSyntax) -> (r: Option<QuadSyntaxConfig>)
        ensures
            r == quad_config_for(self.config(), syntax_),
            r is Some <==> has_quad_serializer(syntax_),
    {
        match syntax_ {
            RdfSyntax::NQuads => Some(QuadSyntaxConfig::NQuads),
            RdfSyntax::TriG => Some(QuadSyntaxConfig::TriG(
                match self.serializer_config_map.trig {
                    Some(o) => o,
                    None => TurtleOptions::default(),
                },
            )),
            _ => None,
        }
    }

    /// A serializer for `syntax_` with the options of `get_config`, or an error
    /// where no engine writes the syntax.
    pub fn try_new_stringifier(&self, syntax_: RdfSyntax) -> (r: Result<DynSynQuadSerializer, UnKnownSyntaxError>)
        ensures
            r is Ok <==> has_quad_serializer(syntax_),
            r matches Ok(s) ==> Some(s.config()) == quad_config_for(self.config(), syntax_)
                && s.written() == Seq::<u8>::empty() && s.is_configured() == has_quad_config(
                self.config(),
                syntax_,
            ),
            r matches Err(e) ==> e.0 == syntax_,
    {
        let configured = match syntax_ {
            RdfSyntax::TriG => self.serializer_config_map.trig.is_some(),
            _ => false,
        };
        match self.get_config(syntax_) {
            Some(c) => Ok(DynSynQuadSerializer::new(c, configured)),
            None => Err(UnKnownSyntaxError(syntax_)),
        }
    }
}

} // verus!
