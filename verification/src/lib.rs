//! Content negotiation and dual rendering for an HTTP service.
//!
//! Given the metadata of an inbound request, the library decides whether the
//! response should be JSON or server-rendered HTML, builds the response
//! through a shared template engine, and uniformly decodes inbound request
//! bodies by their declared content type.

pub mod emit;
pub mod input;
pub mod json;
pub mod media;
pub mod negotiate;
pub mod render;
pub mod response;
