//! Launch planning and configuration handling for the oxlint and oxfmt
//! language servers of the Zed editor: which binary runs the server (the
//! user's own command, Vite+'s `vp`, a project installation, or one kept
//! by the extension), with which environment, and which options and
//! configuration the server receives.

pub mod env;
pub mod json;
pub mod laws;
pub mod lsp;
pub mod oxfmt;
pub mod oxlint;
pub mod server;
pub mod text;
pub mod vite_plus;
