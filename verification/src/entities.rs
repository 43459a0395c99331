//! The unified entity model: what every flavor's responses are turned into.

pub mod account;
pub mod identity_proof;
pub mod notification;
pub mod status;
