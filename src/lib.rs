//! Creates parent and child issues in a project tracker from ticket
//! documents: loading, field defaulting, request framing and the
//! submission protocol, each with a verified contract.

pub mod document;
pub mod error;
pub mod ticket;
pub mod codec;
pub mod reply;
pub mod submit;
pub mod request;
pub mod command;
