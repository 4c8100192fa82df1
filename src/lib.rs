//! The boundary between a host runtime's text values and native strings, and
//! the table under which the greeting function is exported.
pub mod module;
pub mod text;
