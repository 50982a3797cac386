//! Verified core of a small Windows information tool: decoding of the
//! wide-character text that Windows returns, parsing of the token privilege
//! buffer, and the decisions behind each sub-command.

pub mod text;
pub mod privileges;
pub mod window;
pub mod version;
pub mod memory;
pub mod identity;
pub mod command;
