//! Generation of OpenRPC documents for JSON-RPC method declarations.
//!
//! The crate has two halves, used in sequence. The declaration extractor
//! ([`extract`]) walks trait declarations of JSON-RPC methods, modelled by the
//! plain syntax tree in [`ast`], and renders a static lookup table from
//! command name to method metadata, ready to be compiled into the serving
//! process. The document generator ([`openrpc`]) evaluates such metadata
//! against a shared schema-generation context and assembles the final OpenRPC
//! document.

pub mod ast;
pub mod extract;
pub mod openrpc;
