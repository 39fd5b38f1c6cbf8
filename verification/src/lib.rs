//! Native-side logic of a desktop chat client: the settings and cache documents
//! with their defaults, the rules by which they are loaded and replaced, the
//! layout of the per-user workspace, and the screen capture poller's decisions
//! and pixel conversion.

pub mod capture;
pub mod commands;
pub mod text;
pub mod workspace;
