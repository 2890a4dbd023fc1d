//! Items and replies as the screens hold them.

pub mod comment;
pub mod post;
