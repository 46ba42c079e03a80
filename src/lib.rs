//! A workspace and document trust gate: decides whether features that can run
//! code on the user's behalf are enabled for a document or workspace.
pub mod status;
pub mod config;
pub mod path;
pub mod resolve;
pub mod banner;
pub mod prompt;
pub mod session;

pub use status::TrustStatus;
