//! The screens: each owns its state and turns input into state changes and actions.

pub mod gallery;
pub mod postdetail;
pub mod postlist;
pub mod scroll;
pub mod sublist;
