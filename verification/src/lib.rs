//! Calls one remotely hosted algorithm from the command line.
//!
//! The library decides and never touches the outside world. It takes the input
//! options out of the argument list, makes the one payload of what was given or
//! read, plans the one call, and says what is printed and written of the
//! response. Reading, calling and writing are left to the program around it,
//! which `session` leads step by step.

pub mod args;
pub mod dispatch;
pub mod failure;
pub mod flags;
pub mod input;
pub mod json;
pub mod output;
pub mod render;
pub mod run;
pub mod session;
pub mod text;
pub mod usage;
