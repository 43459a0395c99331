//! The Firefish flavor: its wire records and how they become unified entities.

pub mod decoder;
pub mod oauth;
