//! Ingests a feed of post-creation events, keeps the posts that carry a
//! marker and a link, and records a mapping from each link's final path
//! segment ("slug") to the post's record key.

pub mod api;
pub mod backoff;
pub mod consumer;
pub mod cursor;
pub mod decimal;
pub mod extract;
pub mod identity;
pub mod probe;
pub mod store;
