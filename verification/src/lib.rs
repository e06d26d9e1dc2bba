//! Client-side engine for a networked version-control repository: the
//! tree-delta editor protocol, the reporter that precedes it, the session
//! that serialises exchanges, and the credential provider chain.

pub mod auth;
pub mod auth_chain;
pub mod client;
pub mod commit;
pub mod common;
pub mod delta;
pub mod editor;
pub mod editor_laws;
pub mod editor_model;
pub mod history;
pub mod locks;
pub mod reporter;
pub mod session;
pub mod types;
