//! A router that sits in front of two request handlers and sends each
//! request to one of them by a literal byte-prefix test on its path.

pub mod prefix;
pub mod router;

pub use prefix::has_prefix;
pub use router::{Handle, Route, Routed, Router2};
