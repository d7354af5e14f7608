//! Wire types: what requests hold and what replies say.

pub mod base64;
pub mod file;
pub mod grep;
pub mod lifecycle;
pub mod search;
pub mod workspace;
