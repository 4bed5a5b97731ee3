//! Decisions behind a desktop overlay that moves a hand sprite after the
//! mouse cursor: which background a configured colour name selects, what a
//! press on the settings panel does, and which pointer sample of a frame
//! places the sprite.
pub mod background;
pub mod panel;
pub mod pointer;
pub mod text;
