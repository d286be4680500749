//! A minimal blog-posting library: validated submissions, id-derived blob
//! filenames, an append-only post table, and reverse-chronological feed
//! ordering, all with verified contracts.

pub mod feed;
pub mod form;
pub mod laws;
pub mod names;
pub mod pipeline;
pub mod post;
pub mod store;
