//! Error surface of the SDK: a fine-grained internal taxonomy, adapters from
//! the failure types of the libraries the SDK talks through, and the single
//! lossy translation into the small public vocabulary handed to consumers.

pub mod external;
pub mod internal;
pub mod public;
pub mod time_gap;
