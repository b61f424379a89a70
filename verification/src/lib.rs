//! Sans-I/O core of a bridge that drives a browser over its remote-debugging
//! protocol: frames, call correlation, domain activation, element location and
//! condition waits, together with the tool-dispatch rules built on them.

pub mod accessibility;
pub mod browser;
pub mod cdp;
pub mod error;
pub mod frame;
pub mod json;
pub mod mcp;
pub mod native_input;
pub mod screenshot;
pub mod text;
pub mod tools;
