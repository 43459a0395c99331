//! Decoders that turn the responses of federated microblogging servers, each
//! in its own dialect, into one backend-independent entity model.

pub mod entities;
pub mod error;
pub mod firefish;
pub mod flavor;
pub mod json;
pub mod oauth;
pub mod pleroma;
pub mod record;
pub mod strictness;
pub mod text;
pub mod time;
pub mod warning;
