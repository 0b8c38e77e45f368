//! Run-time selection of RDF concrete syntaxes for parsing and serializing,
//! with a uniform statement model over every supported engine.
pub mod adapter;
pub mod correspondence;
pub mod engine;
pub mod errors;
pub mod file_extension;
pub mod media_type;
pub mod parser;
pub mod rio_model;
pub mod serializer;
pub mod source;
pub mod statement;
pub mod syntax;
pub mod text;
