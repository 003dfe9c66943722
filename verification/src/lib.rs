//! Core of a small blogging service: validation of post submissions, the
//! decision logic of the avatar fetch, a model of the post store and of the
//! media directory, and the feed that lists visible posts in descending date
//! order.
//!
//! Network, database and file side effects live outside this crate; the
//! functions here take their outcomes as plain values and are verified for
//! every such outcome.

pub mod digits;
pub mod errors;
pub mod feed;
pub mod media;
pub mod pipeline;
pub mod store;
pub mod submission;
