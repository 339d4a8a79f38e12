//! Notification bridge: fetches a user's assigned issues, sorts them into
//! priority buckets by label, renders them as a block-based chat message and
//! reports how its delivery went. A slash command that asks for it is first
//! authorized against a shared secret.

pub mod classify;
pub mod delivery;
pub mod fetch;
pub mod message;
pub mod models;
pub mod pipeline;
pub mod render;
pub mod slash;
