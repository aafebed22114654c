//! Verified core of the Cloak secrets manager: invitation tokens, the
//! acceptance and registration flows, request parsing and the small
//! text-producing rules that the web handlers rely on.

pub mod text;
pub mod decimal;
pub mod errors;
pub mod user_id;
pub mod rls;
pub mod digest;
pub mod base64url;
pub mod validation;
pub mod invite;
pub mod accept_invite;
pub mod registration;
pub mod models;
pub mod vault;
pub mod ui;
