//! Solanum: the decision logic of a pomodoro timer, verified with Verus.
//!
//! The library holds the state of the countdown timer, the rules that move a
//! session from one lap to the next, the text that the window shows, and the
//! reading of `#[template_child]` attributes. The GTK front end that draws the
//! window, plays the sounds and sends the notifications stands outside it.
pub mod config;
pub mod format;
pub mod timer;
pub mod template;
pub mod window;
