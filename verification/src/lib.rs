//! Agnoshi's interpreter core: natural-language requests become shell commands or
//! tool calls, each with the privilege it needs and an explanation.
pub mod checkpoint;
pub mod explain;
pub mod intent;
pub mod json;
pub mod mcp;
pub mod parse;
pub mod security;
pub mod shell;
pub mod text;
pub mod translate;
