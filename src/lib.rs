//! Decision logic of a daemon that keeps a master/stack layout on a tiling
//! compositor: the window tree it reads, the commands it sends, and how it
//! reacts to lifecycle events and to termination signals.

pub mod tree;
pub mod command;
pub mod layout;
pub mod events;
pub mod shutdown;
