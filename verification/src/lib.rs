//! A verified webhook-to-deploy relay: inbound notifications are
//! authenticated against per-client shared secrets, authorized actions are
//! encoded as single-line wire commands, and a consuming executor decodes
//! lines and resolves them to confined script paths.

pub mod auth;
pub mod codec;
pub mod dispatch;
pub mod executor;
pub mod registry;
pub mod text;
