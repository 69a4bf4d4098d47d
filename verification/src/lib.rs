//! A single-user IndieAuth authorization server: the endpoints' decisions,
//! request checks, session and cookie handling, PKCE, client metadata
//! validation, database operations and page rendering.

pub mod client_metadata;
pub mod codec;
pub mod config;
pub mod csrf;
pub mod db;
pub mod error;
pub mod headers;
pub mod html;
pub mod idgen;
pub mod json;
pub mod pkce;
pub mod routes;
pub mod session;
pub mod text;
pub mod util;
pub mod webauthn;
