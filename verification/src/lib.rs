//! A small timed quiz game over rendered math markup.
//!
//! The player types math-markup source for a displayed fact; the input's
//! rendering is compared, after normalization, with the rendering of the
//! current problem's canonical source. A match awards points and a new
//! problem is drawn at random; in timed play a countdown ends the session.
//!
//! The game's state machine lives in [`session`]; rendering is done by
//! an outside collaborator reached through the trusted declarations in
//! [`render`], and the random draw through one in [`session`].

pub mod problem;
pub mod render;
pub mod session;
pub mod laws;
pub mod text;
