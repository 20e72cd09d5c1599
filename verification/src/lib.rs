//! A local cache of shell scripts: where the cache lives, which of its files
//! are scripts, which script a name stands for, and what has to happen, step
//! by step, before and while one of them runs.
//!
//! Nothing in this crate reads the disk, asks on a terminal or starts a
//! process. Every command is a small state machine ([`session`]): it names
//! the next thing that the program around it has to do, and is told what came
//! of it. What the library asks of the outside itself is the user's home
//! directory ([`cache::get_cache_dir`]).
//!
//! What holds of every run of a command, whatever the disk, the user and the
//! outside programs do, is stated and proved in [`runs`].

pub mod cache;
pub mod command_executor;
pub mod gate;
pub mod index;
pub mod path;
pub mod protocol;
pub mod resolver;
pub mod runs;
pub mod session;
pub mod text;
