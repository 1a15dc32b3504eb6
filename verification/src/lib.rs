//! A small compiler that turns a routing declaration list and an
//! already-parsed API schema document into typed request-handling
//! scaffolding for a web-serving framework: per-route input records,
//! generated data types for the document's named schemas, and glue code
//! that extracts and validates an incoming request before handler code
//! runs.
use vstd::prelude::*;

pub mod codegen;
pub mod compilation;
pub mod err;
pub mod laws;
pub mod model;
pub mod parsing;
pub mod schema;
pub mod util;

verus! {

use crate::err::{Error, ErrorV};
use crate::model::{Document, DocumentV};

/// What the whole pipeline denotes: parse the declaration source, compile
/// the declared routes against the document, and emit the result as source
/// text; the first failure of any stage is the result.
pub open spec fn sp_validate_routes(source: Seq<char>, doc: DocumentV) -> Result<
    Seq<char>,
    ErrorV,
> {
    match parsing::sp_parse_root(source) {
        Ok(root) => match compilation::sp_compile_root(root, doc) {
            Ok(cr) => Ok(codegen::sp_root(cr)),
            Err(e) => Err(e),
        },
        Err(e) => Err(e),
    }
}

/// Run the whole pipeline: declaration parsing, spec-directed route
/// compilation, and code emission, failing fast on the first error.
pub fn validate_routes(source: &str, doc: Document) -> (r: Result<String, Error>)
    ensures
        match r {
            Ok(text) => sp_validate_routes(source@, doc.deep_view()) == Ok::<_, ErrorV>(text@),
            Err(e) => sp_validate_routes(source@, doc.deep_view()) == Err::<Seq<char>, _>(
                e.deep_view(),
            ),
        },
{
    match parsing::Root::parse(source) {
        Ok(root) => match compilation::Compiler::compile(root, doc) {
            Ok(cr) => Ok(cr.emit()),
            Err(e) => Err(e),
        },
        Err(e) => Err(e),
    }
}

} // verus!
