//! A conversational agent loop: the turn-taking engine that mediates
//! between an operator, a chat model, and a small set of locally executed
//! tools. The library holds every decision — the conversation state
//! machine, schema validation and typed decoding of tool inputs, dispatch
//! and result routing, and the tools' pure logic — with contracts checked
//! by Verus. Terminal and file I/O, the chat transport, and process
//! plumbing live in the unverified shell around it.

pub mod agent;
pub mod config;
pub mod content;
pub mod json;
pub mod schema;
pub mod text;
pub mod tool;
pub mod tools;
