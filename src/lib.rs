//! Musical vocabulary tokens, chord progressions and their plain-text file format.
pub mod theory;
pub mod tokens;
pub mod progression;
pub mod render;
pub mod api;
