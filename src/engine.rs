//! The parsing engines behind one closed sum type, and the step that advances
//! whichever is active.
use vstd::prelude::*;

use std::io::Cursor;

use rio_api::model::Quad as RioQuad;
use rio_api::model::Triple as RioTriple;
use rio_api::parser::{QuadsParser, TriplesParser};
use rio_turtle::{NQuadsParser, NTriplesParser, TriGParser, TurtleError, TurtleParser};
use rio_xml::{RdfXmlError, RdfXmlParser};

use crate::errors::InnerParseError;
use crate::rio_model::{is_quad_of, is_triple_of, quad_from_rio, triple_from_rio, triple_has_quoted};
use crate::statement::{Quad, Triple};
use crate::syntax::{has_parser, is_quad_capable, takes_base, RdfSyntax, UnKnownSyntaxError};
use crate::text::copied_text_opt;

verus! {

#[verifier::external_type_specification]
#[verifier::external_body]
pub struct ExTurtleError(TurtleError);

#[verifier::external_type_specification]
#[verifier::external_body]
pub struct ExRdfXmlError(RdfXmlError);

/// Appends the library's form of an engine's triple; none for one that holds
/// a quoted triple.
pub fn collect_triple(out: &mut Vec<Option<Triple>>, t: &RioTriple)
    ensures
        final(out)@.len() == old(out)@.len() + 1,
        final(out)@.subrange(0, old(out)@.len() as int) == old(out)@,
        final(out)@.last() matches Some(x) ==> is_triple_of(x, *t),
        final(out)@.last() is None <==> triple_has_quoted(*t),
{
    out.push(triple_from_rio(t));
    assert(final(out)@.subrange(0, old(out)@.len() as int) =~= old(out)@);
}

/// Appends the library's form of an engine's quad; none for one that holds a
/// quoted triple.
pub fn collect_quad(out: &mut Vec<Option<Quad>>, q: &RioQuad)
    ensures
        final(out)@.len() == old(out)@.len() + 1,
        final(out)@.subrange(0, old(out)@.len() as int) == old(out)@,
        final(out)@.last() matches Some(x) ==> is_quad_of(x, *q),
        final(out)@.last() is None <==> (q.subject is Triple || q.object is Triple),
{
    out.push(quad_from_rio(q));
    assert(final(out)@.subrange(0, old(out)@.len() as int) =~= old(out)@);
}

/// A running N-Quads parser over a document held in memory.
#[verifier::external_body]
pub struct NQuadsEngine {
    parser: NQuadsParser<Cursor<Vec<u8>>>,
}

/// The document that a N-Quads engine reads.
pub uninterp spec fn nquads_document(e: NQuadsEngine) -> Seq<u8>;

/// How many steps a N-Quads engine has taken.
pub uninterp spec fn nquads_steps_taken(e: NQuadsEngine) -> nat;

/// Whether the N-Quads parser of the document is at its end after `k` steps.
pub uninterp spec fn nquads_ends(doc: Seq<u8>, k: nat) -> bool;

/// The quads of step `k` of the N-Quads parser of the document in the
/// order it yields them (none for one quoting a triple), or that the step fails.
pub uninterp spec fn nquads_step_of(doc: Seq<u8>, k: nat) -> Result<Seq<Option<Quad>>, ()>;

/// A bound on the steps of the N-Quads parser of the document that succeed
/// before its end: it returns once the whole document is read (as its
/// `parse_all` does), so every successful step that does not find the
/// document exhausted has an index below it.
pub uninterp spec fn nquads_step_bound(doc: Seq<u8>) -> nat;

/// Relies on `rio_turtle::NQuadsParser::new`: a parser at the start of `data`.
#[verifier::external_body]
fn open_nquads(data: Vec<u8>) -> (r: NQuadsEngine)
    ensures
        nquads_document(r) == data@,
        nquads_steps_taken(r) == 0,
{
    NQuadsEngine { parser: NQuadsParser::new(Cursor::new(data)) }
}

/// Relies on `rio_api::parser::QuadsParser::is_end` for the N-Quads parser: whether
/// the document is exhausted, which depends on the document and the
/// steps taken alone.
#[verifier::external_body]
fn nquads_is_end(e: &NQuadsEngine) -> (r: bool)
    ensures
        r == nquads_ends(nquads_document(*e), nquads_steps_taken(*e)),
{
    e.parser.is_end()
}

/// Relies on `rio_api::parser::QuadsParser::parse_step` for the N-Quads parser: the
/// quads of one step in the order the parser yields them, or its error; the
/// parser's state depends on the document and the steps taken alone.
#[verifier::external_body]
fn nquads_step(e: &mut NQuadsEngine) -> (r: Result<Vec<Option<Quad>>, TurtleError>)
    ensures
        nquads_document(*final(e)) == nquads_document(*old(e)),

        nquads_steps_taken(*final(e)) == nquads_steps_taken(*old(e)) + 1,
        r is Ok && !nquads_ends(nquads_document(*old(e)), nquads_steps_taken(*old(e))) ==> nquads_steps_taken(
            *old(e),
        ) < nquads_step_bound(nquads_document(*old(e))),
        match nquads_step_of(nquads_document(*old(e)), nquads_steps_taken(*old(e))) {
            Ok(v) => r matches Ok(w) && w@ == v,
            Err(_) => r is Err,
        },
{
    let mut out = Vec::new();
    let r = e.parser.parse_step(&mut |t| {
        collect_quad(&mut out, &t);
        Ok::<(), TurtleError>(())
    });
    r.map(|_| out)
}

/// A running TriG parser over a document held in memory.
#[verifier::external_body]
pub struct TriGEngine {
    parser: TriGParser<Cursor<Vec<u8>>>,
}

/// The document that a TriG engine reads.
pub uninterp spec fn trig_document(e: TriGEngine) -> Seq<u8>;

/// The base IRI that a TriG engine was given.
pub uninterp spec fn trig_base(e: TriGEngine) -> Option<Seq<char>>;

/// How many steps a TriG engine has taken.
pub uninterp spec fn trig_steps_taken(e: TriGEngine) -> nat;

/// Whether the TriG parser of the document, with the base, is at its end after `k` steps.
pub uninterp spec fn trig_ends(doc: Seq<u8>, base: Option<Seq<char>>, k: nat) -> bool;

/// The quads of step `k` of the TriG parser of the document, with the base, in the
/// order it yields them (none for one quoting a triple), or that the step fails.
pub uninterp spec fn trig_step_of(doc: Seq<u8>, base: Option<Seq<char>>, k: nat) -> Result<Seq<Option<Quad>>, ()>;

/// A bound on the steps of the TriG parser of the document that succeed
/// before its end: it returns once the whole document is read (as its
/// `parse_all` does), so every successful step that does not find the
/// document exhausted has an index below it.
pub uninterp spec fn trig_step_bound(doc: Seq<u8>, base: Option<Seq<char>>) -> nat;

/// Relies on `rio_turtle::TriGParser::new`: a parser at the start of `data`; it
/// resolves relative IRIs against `base` where `oxiri` parses it as an IRI.
#[verifier::external_body]
fn open_trig(data: Vec<u8>, base: Option<String>) -> (r: TriGEngine)
    ensures
        trig_document(r) == data@,
        trig_base(r) == (match base {
            Some(b) => Some(b@),
            None => None,
        }),
        trig_steps_taken(r) == 0,
{
    let base = base.and_then(|b| oxiri::Iri::parse(b).ok());
    TriGEngine { parser: TriGParser::new(Cursor::new(data), base) }
}

/// Relies on `rio_api::parser::QuadsParser::is_end` for the TriG parser: whether
/// the document is exhausted, which depends on the document, the base and the
/// steps taken alone.
#[verifier::external_body]
fn trig_is_end(e: &TriGEngine) -> (r: bool)
    ensures
        r == trig_ends(trig_document(*e), trig_base(*e), trig_steps_taken(*e)),
{
    e.parser.is_end()
}

/// Relies on `rio_api::parser::QuadsParser::parse_step` for the TriG parser: the
/// quads of one step in the order the parser yields them, or its error; the
/// parser's state depends on the document, the base and the steps taken alone.
#[verifier::external_body]
fn trig_step(e: &mut TriGEngine) -> (r: Result<Vec<Option<Quad>>, TurtleError>)
    ensures
        trig_document(*final(e)) == trig_document(*old(e)),

        trig_base(*final(e)) == trig_base(*old(e)),

        trig_steps_taken(*final(e)) == trig_steps_taken(*old(e)) + 1,
        r is Ok && !trig_ends(trig_document(*old(e)), trig_base(*old(e)), trig_steps_taken(*old(e))) ==> trig_steps_taken(
            *old(e),
        ) < trig_step_bound(trig_document(*old(e)), trig_base(*old(e))),
        match trig_step_of(trig_document(*old(e)), trig_base(*old(e)), trig_steps_taken(*old(e))) {
            Ok(v) => r matches Ok(w) && w@ == v,
            Err(_) => r is Err,
        },
{
    let mut out = Vec::new();
    let r = e.parser.parse_step(&mut |t| {
        collect_quad(&mut out, &t);
        Ok::<(), TurtleError>(())
    });
    r.map(|_| out)
}

/// A running N-Triples parser over a document held in memory.
#[verifier::external_body]
pub struct NTriplesEngine {
    parser: NTriplesParser<Cursor<Vec<u8>>>,
}

/// The document that a N-Triples engine reads.
pub uninterp spec fn ntriples_document(e: NTriplesEngine) -> Seq<u8>;

/// How many steps a N-Triples engine has taken.
pub uninterp spec fn ntriples_steps_taken(e: NTriplesEngine) -> nat;

/// Whether the N-Triples parser of the document is at its end after `k` steps.
pub uninterp spec fn ntriples_ends(doc: Seq<u8>, k: nat) -> bool;

/// The triples of step `k` of the N-Triples parser of the document in the
/// order it yields them (none for one quoting a triple), or that the step fails.
pub uninterp spec fn ntriples_step_of(doc: Seq<u8>, k: nat) -> Result<Seq<Option<Triple>>, ()>;

/// A bound on the steps of the N-Triples parser of the document that succeed
/// before its end: it returns once the whole document is read (as its
/// `parse_all` does), so every successful step that does not find the
/// document exhausted has an index below it.
pub uninterp spec fn ntriples_step_bound(doc: Seq<u8>) -> nat;

/// Relies on `rio_turtle::NTriplesParser::new`: a parser at the start of `data`.
#[verifier::external_body]
fn open_ntriples(data: Vec<u8>) -> (r: NTriplesEngine)
    ensures
        ntriples_document(r) == data@,
        ntriples_steps_taken(r) == 0,
{
    NTriplesEngine { parser: NTriplesParser::new(Cursor::new(data)) }
}

/// Relies on `rio_api::parser::TriplesParser::is_end` for the N-Triples parser: whether
/// the document is exhausted, which depends on the document and the
/// steps taken alone.
#[verifier::external_body]
fn ntriples_is_end(e: &NTriplesEngine) -> (r: bool)
    ensures
        r == ntriples_ends(ntriples_document(*e), ntriples_steps_taken(*e)),
{
    e.parser.is_end()
}

/// Relies on `rio_api::parser::TriplesParser::parse_step` for the N-Triples parser: the
/// triples of one step in the order the parser yields them, or its error; the
/// parser's state depends on the document and the steps taken alone.
#[verifier::external_body]
fn ntriples_step(e: &mut NTriplesEngine) -> (r: Result<Vec<Option<Triple>>, TurtleError>)
    ensures
        ntriples_document(*final(e)) == ntriples_document(*old(e)),

        ntriples_steps_taken(*final(e)) == ntriples_steps_taken(*old(e)) + 1,
        r is Ok && !ntriples_ends(ntriples_document(*old(e)), ntriples_steps_taken(*old(e))) ==> ntriples_steps_taken(
            *old(e),
        ) < ntriples_step_bound(ntriples_document(*old(e))),
        match ntriples_step_of(ntriples_document(*old(e)), ntriples_steps_taken(*old(e))) {
            Ok(v) => r matches Ok(w) && w@ == v,
            Err(_) => r is Err,
        },
{
    let mut out = Vec::new();
    let r = e.parser.parse_step(&mut |t| {
        collect_triple(&mut out, &t);
        Ok::<(), TurtleError>(())
    });
    r.map(|_| out)
}

/// A running Turtle parser over a document held in memory.
#[verifier::external_body]
pub struct TurtleEngine {
    parser: TurtleParser<Cursor<Vec<u8>>>,
}

/// The document that a Turtle engine reads.
pub uninterp spec fn turtle_document(e: TurtleEngine) -> Seq<u8>;

/// The base IRI that a Turtle engine was given.
pub uninterp spec fn turtle_base(e: TurtleEngine) -> Option<Seq<char>>;

/// How many steps a Turtle engine has taken.
pub uninterp spec fn turtle_steps_taken(e: TurtleEngine) -> nat;

/// Whether the Turtle parser of the document, with the base, is at its end after `k` steps.
pub uninterp spec fn turtle_ends(doc: Seq<u8>, base: Option<Seq<char>>, k: nat) -> bool;

/// The triples of step `k` of the Turtle parser of the document, with the base, in the
/// order it yields them (none for one quoting a triple), or that the step fails.
pub uninterp spec fn turtle_step_of(doc: Seq<u8>, base: Option<Seq<char>>, k: nat) -> Result<Seq<Option<Triple>>, ()>;

/// A bound on the steps of the Turtle parser of the document that succeed
/// before its end: it returns once the whole document is read (as its
/// `parse_all` does), so every successful step that does not find the
/// document exhausted has an index below it.
pub uninterp spec fn turtle_step_bound(doc: Seq<u8>, base: Option<Seq<char>>) -> nat;

/// Relies on `rio_turtle::TurtleParser::new`: a parser at the start of `data`; it
/// resolves relative IRIs against `base` where `oxiri` parses it as an IRI.
#[verifier::external_body]
fn open_turtle(data: Vec<u8>, base: Option<String>) -> (r: TurtleEngine)
    ensures
        turtle_document(r) == data@,
        turtle_base(r) == (match base {
            Some(b) => Some(b@),
            None => None,
        }),
        turtle_steps_taken(r) == 0,
{
    let base = base.and_then(|b| oxiri::Iri::parse(b).ok());
    TurtleEngine { parser: TurtleParser::new(Cursor::new(data), base) }
}

/// Relies on `rio_api::parser::TriplesParser::is_end` for the Turtle parser: whether
/// the document is exhausted, which depends on the document, the base and the
/// steps taken alone.
#[verifier::external_body]
fn turtle_is_end(e: &TurtleEngine) -> (r: bool)
    ensures
        r == turtle_ends(turtle_document(*e), turtle_base(*e), turtle_steps_taken(*e)),
{
    e.parser.is_end()
}

/// Relies on `rio_api::parser::TriplesParser::parse_step` for the Turtle parser: the
/// triples of one step in the order the parser yields them, or its error; the
/// parser's state depends on the document, the base and the steps taken alone.
#[verifier::external_body]
fn turtle_step(e: &mut TurtleEngine) -> (r: Result<Vec<Option<Triple>>, TurtleError>)
    ensures
        turtle_document(*final(e)) == turtle_document(*old(e)),

        turtle_base(*final(e)) == turtle_base(*old(e)),

        turtle_steps_taken(*final(e)) == turtle_steps_taken(*old(e)) + 1,
        r is Ok && !turtle_ends(turtle_document(*old(e)), turtle_base(*old(e)), turtle_steps_taken(*old(e))) ==> turtle_steps_taken(
            *old(e),
        ) < turtle_step_bound(turtle_document(*old(e)), turtle_base(*old(e))),
        match turtle_step_of(turtle_document(*old(e)), turtle_base(*old(e)), turtle_steps_taken(*old(e))) {
            Ok(v) => r matches Ok(w) && w@ == v,
            Err(_) => r is Err,
        },
{
    let mut out = Vec::new();
    let r = e.parser.parse_step(&mut |t| {
        collect_triple(&mut out, &t);
        Ok::<(), TurtleError>(())
    });
    r.map(|_| out)
}

/// A running RDF/XML parser over a document held in memory.
#[verifier::external_body]
pub struct RdfXmlEngine {
    parser: RdfXmlParser<Cursor<Vec<u8>>>,
}

/// The document that a RDF/XML engine reads.
pub uninterp spec fn rdf_xml_document(e: RdfXmlEngine) -> Seq<u8>;

/// The base IRI that a RDF/XML engine was given.
pub uninterp spec fn rdf_xml_base(e: RdfXmlEngine) -> Option<Seq<char>>;

/// How many steps a RDF/XML engine has taken.
pub uninterp spec fn rdf_xml_steps_taken(e: RdfXmlEngine) -> nat;

/// Whether the RDF/XML parser of the document, with the base, is at its end after `k` steps.
pub uninterp spec fn rdf_xml_ends(doc: Seq<u8>, base: Option<Seq<char>>, k: nat) -> bool;

/// The triples of step `k` of the RDF/XML parser of the document, with the base, in the
/// order it yields them (none for one quoting a triple), or that the step fails.
pub uninterp spec fn rdf_xml_step_of(doc: Seq<u8>, base: Option<Seq<char>>, k: nat) -> Result<Seq<Option<Triple>>, ()>;

/// A bound on the steps of the RDF/XML parser of the document that succeed
/// before its end: it returns once the whole document is read (as its
/// `parse_all` does), so every successful step that does not find the
/// document exhausted has an index below it.
pub uninterp spec fn rdf_xml_step_bound(doc: Seq<u8>, base: Option<Seq<char>>) -> nat;

/// Relies on `rio_xml::RdfXmlParser::new`: a parser at the start of `data`; it
/// resolves relative IRIs against `base` where `oxiri` parses it as an IRI.
#[verifier::external_body]
fn open_rdf_xml(data: Vec<u8>, base: Option<String>) -> (r: RdfXmlEngine)
    ensures
        rdf_xml_document(r) == data@,
        rdf_xml_base(r) == (match base {
            Some(b) => Some(b@),
            None => None,
        }),
        rdf_xml_steps_taken(r) == 0,
{
    let base = base.and_then(|b| oxiri::Iri::parse(b).ok());
    RdfXmlEngine { parser: RdfXmlParser::new(Cursor::new(data), base) }
}

/// Relies on `rio_api::parser::TriplesParser::is_end` for the RDF/XML parser: whether
/// the document is exhausted, which depends on the document, the base and the
/// steps taken alone.
#[verifier::external_body]
fn rdf_xml_is_end(e: &RdfXmlEngine) -> (r: bool)
    ensures
        r == rdf_xml_ends(rdf_xml_document(*e), rdf_xml_base(*e), rdf_xml_steps_taken(*e)),
{
    e.parser.is_end()
}

/// Relies on `rio_api::parser::TriplesParser::parse_step` for the RDF/XML parser: the
/// triples of one step in the order the parser yields them, or its error; the
/// parser's state depends on the document, the base and the steps taken alone.
#[verifier::external_body]
fn rdf_xml_step(e: &mut RdfXmlEngine) -> (r: Result<Vec<Option<Triple>>, RdfXmlError>)
    ensures
        rdf_xml_document(*final(e)) == rdf_xml_document(*old(e)),

        rdf_xml_base(*final(e)) == rdf_xml_base(*old(e)),

        rdf_xml_steps_taken(*final(e)) == rdf_xml_steps_taken(*old(e)) + 1,
        r is Ok && !rdf_xml_ends(rdf_xml_document(*old(e)), rdf_xml_base(*old(e)), rdf_xml_steps_taken(*old(e))) ==> rdf_xml_steps_taken(
            *old(e),
        ) < rdf_xml_step_bound(rdf_xml_document(*old(e)), rdf_xml_base(*old(e))),
        match rdf_xml_step_of(rdf_xml_document(*old(e)), rdf_xml_base(*old(e)), rdf_xml_steps_taken(*old(e))) {
            Ok(v) => r matches Ok(w) && w@ == v,
            Err(_) => r is Err,
        },
{
    let mut out = Vec::new();
    let r = e.parser.parse_step(&mut |t| {
        collect_triple(&mut out, &t);
        Ok::<(), RdfXmlError>(())
    });
    r.map(|_| out)
}
/// Whether every item is present.
pub open spec fn all_present<T>(v: Seq<Option<T>>) -> bool {
    forall|i: int| 0 <= i < v.len() ==> v[i] is Some
}

/// The items of a sequence whose items are all present.
pub open spec fn present_items<T>(v: Seq<Option<T>>) -> Seq<T> {
    v.map_values(|o: Option<T>| o->Some_0)
}

/// Whether `out` is what the library makes of an engine step of triples: the
/// triples, an error where one quotes a triple, or the engine's error (of the
/// RDF/XML engine where `xml`, else of the Turtle family).
pub open spec fn triples_outcome(
    n: Result<Seq<Option<Triple>>, ()>,
    out: Result<Option<NativeStatements>, InnerParseError>,
    xml: bool,
) -> bool {
    match n {
        Ok(v) => if all_present(v) {
            out matches Ok(Some(NativeStatements::Triples(w))) && w@ == present_items(v)
        } else {
            out matches Err(InnerParseError::QuotedTriple)
        },
        Err(_) => out matches Err(e) && (if xml {
            e is RdfXml
        } else {
            e is Turtle
        }),
    }
}

/// Whether `out` is what the library makes of an engine step of quads: the
/// quads, an error where one quotes a triple, or the engine's error.
pub open spec fn quads_outcome(
    n: Result<Seq<Option<Quad>>, ()>,
    out: Result<Option<NativeStatements>, InnerParseError>,
    xml: bool,
) -> bool {
    match n {
        Ok(v) => if all_present(v) {
            out matches Ok(Some(NativeStatements::Quads(w))) && w@ == present_items(v)
        } else {
            out matches Err(InnerParseError::QuotedTriple)
        },
        Err(_) => out matches Err(e) && (if xml {
            e is RdfXml
        } else {
            e is Turtle
        }),
    }
}

/// The statements of one engine step, in the engine's own shape.
pub enum NativeStatements {
    Triples(Vec<Triple>),
    Quads(Vec<Quad>),
}

/// The triples of a step, where none quotes a triple.
fn all_triples(v: &Vec<Option<Triple>>) -> (r: Option<Vec<Triple>>)
    ensures
        r is Some <==> all_present(v@),
        r matches Some(w) ==> w@ == present_items(v@),
{
    let mut w: Vec<Triple> = Vec::new();
    let mut i: usize = 0;
    while i < v.len()
        invariant
            i <= v@.len(),
            w@.len() == i,
            forall|j: int| 0 <= j < i ==> v@[j] == Some(#[trigger] w@[j]),
        decreases v.len() - i,
    {
        match &v[i] {
            Some(t) => w.push(t.copied()),
            None => return None,
        }
        i = i + 1;
    }
    assert forall|j: int| 0 <= j < v@.len() implies v@[j] is Some by {
        assert(v@[j] == Some(w@[j]));
    }
    assert(w@ =~= present_items(v@));
    Some(w)
}

/// The quads of a step, where none quotes a triple.
fn all_quads(v: &Vec<Option<Quad>>) -> (r: Option<Vec<Quad>>)
    ensures
        r is Some <==> all_present(v@),
        r matches Some(w) ==> w@ == present_items(v@),
{
    let mut w: Vec<Quad> = Vec::new();
    let mut i: usize = 0;
    while i < v.len()
        invariant
            i <= v@.len(),
            w@.len() == i,
            forall|j: int| 0 <= j < i ==> v@[j] == Some(#[trigger] w@[j]),
        decreases v.len() - i,
    {
        match &v[i] {
            Some(q) => w.push(q.copied()),
            None => return None,
        }
        i = i + 1;
    }
    assert forall|j: int| 0 <= j < v@.len() implies v@[j] is Some by {
        assert(v@[j] == Some(w@[j]));
    }
    assert(w@ =~= present_items(v@));
    Some(w)
}

/// A parser configuration for one of the syntaxes that an engine implements.
#[derive(Debug)]
pub enum InnerParser {
    NQuads,
    TriG(Option<String>),
    NTriples,
    Turtle(Option<String>),
    RdfXml(Option<String>),
}

impl InnerParser {
    /// The syntax this configuration parses.
    pub open spec fn syntax(&self) -> RdfSyntax {
        match self {
            InnerParser::NQuads => RdfSyntax::NQuads,
            InnerParser::TriG(_) => RdfSyntax::TriG,
            InnerParser::NTriples => RdfSyntax::NTriples,
            InnerParser::Turtle(_) => RdfSyntax::Turtle,
            InnerParser::RdfXml(_) => RdfSyntax::RdfXml,
        }
    }

    /// The base IRI handed to the engine, if any; the engine resolves relative
    /// IRIs against it where it parses as an IRI and ignores it otherwise.
    pub open spec fn base(&self) -> Option<Seq<char>> {
        match self {
            InnerParser::TriG(Some(b)) | InnerParser::Turtle(Some(b)) | InnerParser::RdfXml(
                Some(b),
            ) => Some(b@),
            _ => None,
        }
    }

    /// The configuration for `syntax_`; the base IRI is kept only for the
    /// syntaxes whose grammar resolves relative IRIs.
    pub fn try_new(syntax_: RdfSyntax, base_iri: Option<String>) -> (r: Result<
        InnerParser,
        UnKnownSyntaxError,
    >)
        ensures
            r is Ok <==> has_parser(syntax_),
            r matches Ok(p) ==> p.syntax() == syntax_ && p.base() == (if takes_base(syntax_) {
                match base_iri {
                    Some(b) => Some(b@),
                    None => None,
                }
            } else {
                None
            }),
            r matches Err(e) ==> e.0 == syntax_,
    {
        match syntax_ {
            RdfSyntax::NQuads => Ok(InnerParser::NQuads),
            RdfSyntax::NTriples => Ok(InnerParser::NTriples),
            RdfSyntax::RdfXml => Ok(InnerParser::RdfXml(base_iri)),
            RdfSyntax::TriG => Ok(InnerParser::TriG(base_iri)),
            RdfSyntax::Turtle => Ok(InnerParser::Turtle(base_iri)),
            _ => Err(UnKnownSyntaxError(syntax_)),
        }
    }

    /// Starts the engine of this configuration on a document. Nothing is read
    /// yet.
    pub fn parse(&self, data: Vec<u8>) -> (r: InnerStatementSource)
        ensures
            r.syntax() == self.syntax(),
            r.document() == data@,
            r.base() == self.base(),
            r.steps_taken() == 0,
    {
        match self {
            InnerParser::NQuads => InnerStatementSource::FNQuads(open_nquads(data)),
            InnerParser::TriG(b) => InnerStatementSource::FTriG(open_trig(data, copied_text_opt(b))),
            InnerParser::NTriples => InnerStatementSource::FNTriples(open_ntriples(data)),
            InnerParser::Turtle(b) => InnerStatementSource::FTurtle(
                open_turtle(data, copied_text_opt(b)),
            ),
            InnerParser::RdfXml(b) => InnerStatementSource::FRdfXml(
                open_rdf_xml(data, copied_text_opt(b)),
            ),
        }
    }
}

/// A running engine of one of the supported syntaxes.
pub enum InnerStatementSource {
    FNQuads(NQuadsEngine),
    FTriG(TriGEngine),
    FNTriples(NTriplesEngine),
    FTurtle(TurtleEngine),
    FRdfXml(RdfXmlEngine),
}

/// Brings the outcome of an engine step of triples to the library's shape: the
/// triples in order, or an error where one of them quotes a triple or the
/// engine failed.
pub fn triples_step(r: Result<Vec<Option<Triple>>, InnerParseError>) -> (out: Result<
    Option<NativeStatements>,
    InnerParseError,
>)
    ensures
        match r {
            Ok(v) => triples_outcome(Ok(v@), out, false),
            Err(e) => out matches Err(x) && x == e,
        },
{
    match r {
        Ok(v) => match all_triples(&v) {
            Some(ts) => Ok(Some(NativeStatements::Triples(ts))),
            None => Err(InnerParseError::QuotedTriple),
        },
        Err(e) => Err(e),
    }
}

/// Brings the outcome of an engine step of quads to the library's shape: the
/// quads in order, or an error where one of them quotes a triple or the
/// engine failed.
pub fn quads_step(r: Result<Vec<Option<Quad>>, InnerParseError>) -> (out: Result<
    Option<NativeStatements>,
    InnerParseError,
>)
    ensures
        match r {
            Ok(v) => quads_outcome(Ok(v@), out, false),
            Err(e) => out matches Err(x) && x == e,
        },
{
    match r {
        Ok(v) => match all_quads(&v) {
            Some(qs) => Ok(Some(NativeStatements::Quads(qs))),
            None => Err(InnerParseError::QuotedTriple),
        },
        Err(e) => Err(e),
    }
}

/// Keeps a Turtle-family engine's error.
fn turtle_failure<T>(r: Result<T, TurtleError>) -> (out: Result<T, InnerParseError>)
    ensures
        match r {
            Ok(v) => out matches Ok(w) && w == v,
            Err(e) => out matches Err(InnerParseError::Turtle(x)) && x == e,
        },
{
    match r {
        Ok(v) => Ok(v),
        Err(e) => Err(InnerParseError::Turtle(e)),
    }
}

impl InnerStatementSource {
    /// The syntax of the running engine.
    pub open spec fn syntax(&self) -> RdfSyntax {
        match self {
            InnerStatementSource::FNQuads(_) => RdfSyntax::NQuads,
            InnerStatementSource::FTriG(_) => RdfSyntax::TriG,
            InnerStatementSource::FNTriples(_) => RdfSyntax::NTriples,
            InnerStatementSource::FTurtle(_) => RdfSyntax::Turtle,
            InnerStatementSource::FRdfXml(_) => RdfSyntax::RdfXml,
        }
    }

    /// The document the engine reads.
    pub open spec fn document(&self) -> Seq<u8> {
        match self {
            InnerStatementSource::FNQuads(e) => nquads_document(*e),
            InnerStatementSource::FTriG(e) => trig_document(*e),
            InnerStatementSource::FNTriples(e) => ntriples_document(*e),
            InnerStatementSource::FTurtle(e) => turtle_document(*e),
            InnerStatementSource::FRdfXml(e) => rdf_xml_document(*e),
        }
    }

    /// The base IRI the engine was given; none for a syntax without one.
    pub open spec fn base(&self) -> Option<Seq<char>> {
        match self {
            InnerStatementSource::FTriG(e) => trig_base(*e),
            InnerStatementSource::FTurtle(e) => turtle_base(*e),
            InnerStatementSource::FRdfXml(e) => rdf_xml_base(*e),
            _ => None,
        }
    }

    /// How many steps the engine has taken.
    pub open spec fn steps_taken(&self) -> nat {
        match self {
            InnerStatementSource::FNQuads(e) => nquads_steps_taken(*e),
            InnerStatementSource::FTriG(e) => trig_steps_taken(*e),
            InnerStatementSource::FNTriples(e) => ntriples_steps_taken(*e),
            InnerStatementSource::FTurtle(e) => turtle_steps_taken(*e),
            InnerStatementSource::FRdfXml(e) => rdf_xml_steps_taken(*e),
        }
    }

    /// Whether the engine's document is exhausted after `k` steps.
    pub open spec fn ends_at(&self, k: nat) -> bool {
        match self {
            InnerStatementSource::FNQuads(e) => nquads_ends(nquads_document(*e), k),
            InnerStatementSource::FTriG(e) => trig_ends(trig_document(*e), trig_base(*e), k),
            InnerStatementSource::FNTriples(e) => ntriples_ends(ntriples_document(*e), k),
            InnerStatementSource::FTurtle(e) => turtle_ends(turtle_document(*e), turtle_base(*e), k),
            InnerStatementSource::FRdfXml(e) => rdf_xml_ends(rdf_xml_document(*e), rdf_xml_base(*e), k),
        }
    }

    /// What step `k` of a quad engine yields.
    pub open spec fn quads_at(&self, k: nat) -> Result<Seq<Option<Quad>>, ()> {
        match self {
            InnerStatementSource::FNQuads(e) => nquads_step_of(nquads_document(*e), k),
            InnerStatementSource::FTriG(e) => trig_step_of(trig_document(*e), trig_base(*e), k),
            _ => Err(()),
        }
    }

    /// What step `k` of a triple engine yields.
    pub open spec fn triples_at(&self, k: nat) -> Result<Seq<Option<Triple>>, ()> {
        match self {
            InnerStatementSource::FNTriples(e) => ntriples_step_of(ntriples_document(*e), k),
            InnerStatementSource::FTurtle(e) => turtle_step_of(turtle_document(*e), turtle_base(*e), k),
            InnerStatementSource::FRdfXml(e) => rdf_xml_step_of(rdf_xml_document(*e), rdf_xml_base(*e), k),
            _ => Err(()),
        }
    }

    /// A bound on the engine's successful steps before the end of its document.
    pub open spec fn step_bound(&self) -> nat {
        match self {
            InnerStatementSource::FNQuads(e) => nquads_step_bound(nquads_document(*e)),
            InnerStatementSource::FTriG(e) => trig_step_bound(trig_document(*e), trig_base(*e)),
            InnerStatementSource::FNTriples(e) => ntriples_step_bound(ntriples_document(*e)),
            InnerStatementSource::FTurtle(e) => turtle_step_bound(turtle_document(*e), turtle_base(*e)),
            InnerStatementSource::FRdfXml(e) => rdf_xml_step_bound(rdf_xml_document(*e), rdf_xml_base(*e)),
        }
    }

    /// Whether the engine is at the end of its document.
    pub open spec fn at_end(&self) -> bool {
        self.ends_at(self.steps_taken())
    }

    /// What the next step of a quad engine yields.
    pub open spec fn next_quads(&self) -> Result<Seq<Option<Quad>>, ()> {
        self.quads_at(self.steps_taken())
    }

    /// What the next step of a triple engine yields.
    pub open spec fn next_triples(&self) -> Result<Seq<Option<Triple>>, ()> {
        self.triples_at(self.steps_taken())
    }

    /// Whether `out` is what the library makes of the engine's next step.
    pub open spec fn next_outcome(&self, out: Result<Option<NativeStatements>, InnerParseError>) -> bool {
        if is_quad_capable(self.syntax()) {
            quads_outcome(self.next_quads(), out, false)
        } else {
            triples_outcome(self.next_triples(), out, self.syntax() == RdfSyntax::RdfXml)
        }
    }

    /// Advances the engine by one step: none once the document is exhausted,
    /// else the statements of the step in the engine's own shape, or its error.
    pub fn next_native(&mut self) -> (r: Result<Option<NativeStatements>, InnerParseError>)
        ensures
            final(self).syntax() == old(self).syntax(),
            final(self).document() == old(self).document(),
            final(self).base() == old(self).base(),
            old(self).at_end() ==> (r matches Ok(None) && final(self).steps_taken() == old(
                self,
            ).steps_taken()),
            !old(self).at_end() ==> final(self).steps_taken() == old(self).steps_taken() + 1
                && old(self).next_outcome(r),
            r matches Ok(Some(_)) ==> old(self).steps_taken() < old(self).step_bound(),
    {
        match self {
            InnerStatementSource::FNQuads(e) => {
                if nquads_is_end(e) {
                    return Ok(None);
                }
                quads_step(turtle_failure(nquads_step(e)))
            },
            InnerStatementSource::FTriG(e) => {
                if trig_is_end(e) {
                    return Ok(None);
                }
                quads_step(turtle_failure(trig_step(e)))
            },
            InnerStatementSource::FNTriples(e) => {
                if ntriples_is_end(e) {
                    return Ok(None);
                }
                triples_step(turtle_failure(ntriples_step(e)))
            },
            InnerStatementSource::FTurtle(e) => {
                if turtle_is_end(e) {
                    return Ok(None);
                }
                triples_step(turtle_failure(turtle_step(e)))
            },
            InnerStatementSource::FRdfXml(e) => {
                if rdf_xml_is_end(e) {
                    return Ok(None);
                }
                match rdf_xml_step(e) {
                    Ok(v) => triples_step(Ok(v)),
                    Err(x) => Err(InnerParseError::RdfXml(x)),
                }
            },
        }
    }
}

} // verus!
