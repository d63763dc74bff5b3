//! Service-discovery resolution: a `Resolver` hands out `Resolution`s whose
//! endpoint updates arrive from a background process over a channel.

pub mod addr;
pub mod labels;
pub mod metadata;
pub mod endpoint;
pub mod update;
mod channel;
pub mod resolver;
