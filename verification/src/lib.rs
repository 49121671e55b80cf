//! Plans for starting and ending a workday: which apps, URLs and shell
//! commands to open in the morning, which apps to quit in the evening, and
//! the exact sequence of messages, system calls and pauses that carries such
//! a plan out.

pub mod config;
pub mod planner;
pub mod platform;
pub mod runner;
pub mod text;
