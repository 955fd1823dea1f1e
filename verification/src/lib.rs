//! Team registry and command engine for a team competition that is run
//! inside a chat platform.
//!
//! Teams are bound to a channel and a permission group and carry a score.
//! The registry keeps at most one team per channel. The engine routes each
//! structured command invocation through the command tree, lets privileged
//! commands through the permission gate only, and writes the response. What
//! only the platform can do (say whether an actor holds a group, change a
//! group) is handed out as a step and its answer is taken back in.

pub mod colour;
pub mod dispatch;
pub mod gate;
pub mod invocation;
pub mod plan;
pub mod registry;
pub mod reply;
pub mod step;
pub mod team;
pub mod text;
