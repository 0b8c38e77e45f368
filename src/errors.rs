//! One error type over every engine's parse errors, and the split between
//! errors of the source and errors of the consumer.
use vstd::prelude::*;

use rio_turtle::TurtleError;
use rio_xml::RdfXmlError;

verus! {

/// Relies on `TurtleError`'s `Display`: the engine's own diagnostic.
#[verifier::external_body]
fn turtle_error_message(e: &TurtleError) -> (r: String) {
    e.to_string()
}

/// Relies on `RdfXmlError`'s `Display`: the engine's own diagnostic.
#[verifier::external_body]
fn rdf_xml_error_message(e: &RdfXmlError) -> (r: String) {
    e.to_string()
}

/// An error of one of the parsing engines, kept as the engine gave it.
#[derive(Debug)]
pub enum InnerParseError {
    /// An error of the Turtle-family engine (Turtle, TriG, N-Triples, N-Quads).
    Turtle(TurtleError),
    /// An error of the RDF/XML engine.
    RdfXml(RdfXmlError),
    /// The document quotes a triple as a term, which the statement model does
    /// not hold.
    QuotedTriple,
}

/// A parse error of whichever engine is active.
#[derive(Debug)]
pub struct DynSynParseError(pub InnerParseError);

impl DynSynParseError {
    /// The engine's diagnostic for this error, or the library's own for a
    /// quoted triple.
    pub fn message(&self) -> (r: String)
        ensures
            self.0 is QuotedTriple ==> r@ == "quoted triples are not supported"@,
    {
        match &self.0 {
            InnerParseError::Turtle(e) => turtle_error_message(e),
            InnerParseError::RdfXml(e) => rdf_xml_error_message(e),
            InnerParseError::QuotedTriple => "quoted triples are not supported".to_string(),
        }
    }
}

/// An error while streaming statements: either the source failed (malformed
/// input) or the consumer did.
#[derive(Debug)]
pub enum StreamError<SourceErr, SinkErr> {
    SourceError(SourceErr),
    SinkError(SinkErr),
}

/// Wraps an engine's source error into the unified parse error; a consumer's
/// error passes through untouched.
pub fn adapt_quads_stream_error<SinkErr>(e: StreamError<InnerParseError, SinkErr>) -> (r:
    StreamError<DynSynParseError, SinkErr>)
    ensures
        match e {
            StreamError::SourceError(x) => r matches StreamError::SourceError(y) && y.0 == x,
            StreamError::SinkError(x) => r matches StreamError::SinkError(y) && y == x,
        },
{
    match e {
        StreamError::SourceError(x) => StreamError::SourceError(DynSynParseError(x)),
        StreamError::SinkError(x) => StreamError::SinkError(x),
    }
}

/// Adapts the error of a streaming result as `adapt_quads_stream_error` does;
/// a value passes through untouched.
pub fn adapt_stream_result<T, SinkErr>(r: Result<T, StreamError<InnerParseError, SinkErr>>) -> (out:
    Result<T, StreamError<DynSynParseError, SinkErr>>)
    ensures
        match r {
            Ok(v) => out matches Ok(w) && w == v,
            Err(StreamError::SourceError(x)) => out matches Err(StreamError::SourceError(y)) && y.0
                == x,
            Err(StreamError::SinkError(x)) => out matches Err(StreamError::SinkError(y)) && y == x,
        },
{
    match r {
        Ok(v) => Ok(v),
        Err(e) => Err(adapt_quads_stream_error(e)),
    }
}

} // verus!
