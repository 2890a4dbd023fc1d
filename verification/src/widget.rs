//! What single entries of a screen are laid out as.

pub mod comment_widget;
