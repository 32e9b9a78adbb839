//! Script command metadata, its compilation into the chat platform's nested
//! command schema, canonical member snapshots, and the web API error table.

pub mod script;
pub mod schema;
pub mod compiler;
pub mod member;
pub mod errors;
