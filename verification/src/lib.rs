//! Normalization of listing pages into displayable media items, and the
//! state machine of the slideshow that walks over them.

pub mod data;
pub mod extract;
pub mod listing;
pub mod pattern;
pub mod player;
pub mod text;
pub mod viewer;
