//! The decision logic of a small first-person game: which keys steer the
//! player, how window events move the window between windowed, fullscreen
//! and cursor-captured modes, which video mode fullscreen picks, how images
//! are decoded for textures, and the integer layouts handed to the GPU.
pub mod input;
pub mod video;
pub mod state;
pub mod event;
pub mod layout;
pub mod decode;
