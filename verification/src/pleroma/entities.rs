//! Pleroma's wire records.

pub mod account;
pub mod identity_proof;
pub mod notification;
pub mod status;
