//! Content pipeline of a small static blog: front-matter framing and
//! validation, Markdown rendering, cover-image resolution, directory listing
//! and the newest-first ordering of posts.

pub mod collection;
pub mod error;
pub mod front_matter;
pub mod post;
