//! A request dispatcher for a small HTTP-like surface: a health route, a tool
//! catalog route with named resources, and a tool execution route whose local
//! tools shadow those of a remote tool service.
pub mod clock;
pub mod envelope;
pub mod json_text;
pub mod laws;
pub mod resource;
pub mod router;
pub mod tools;
pub mod upstream;
