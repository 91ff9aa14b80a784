//! Resolution helpers for a native module that runs inside a scripting host.

pub mod helper_script;
pub mod host;
pub mod identity;
pub mod location;
pub mod memo;
pub mod path;
pub mod resolver;
pub mod surface;
pub mod text;
