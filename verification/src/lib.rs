//! A bridge between a host application and a locally running media player.
//!
//! The player offers no native API; its automation object is reachable only
//! through an external scripting host that can run small scripts and print
//! results to standard output.  This crate renders the script text for a
//! property probe or a control command, hands it to the scripting host, and
//! parses the line-oriented response back into typed values, keeping the
//! positional correspondence between requested property names and returned
//! output lines.

pub mod bridge;
pub mod controls;
pub mod error;
pub mod host;
pub mod response;
pub mod script;
pub mod song;
pub mod text;
