//! A Pomodoro timer as a verified decision core.
//!
//! The timer alternates work and break sessions and is steered by four
//! commands (pause, resume, skip, quit). Everything that decides is here and
//! is proved against its contract; sleeping, reading the clock, printing and
//! the two threads belong to the program around this library, which performs
//! each [`timer::Action`] and hands back the [`timer::Event`] it asks for.

pub mod clock;
pub mod text;
pub mod command;
pub mod config;
pub mod timer;
pub mod channel;
pub mod reader;
pub mod signal;
pub mod laws;
