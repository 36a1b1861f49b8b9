//! The MCP tool server: the tools derived from the command tree, their input
//! schemas, and the command lines that tool calls become.

pub mod schema;
pub mod registry;
pub mod server;
pub mod tree;
