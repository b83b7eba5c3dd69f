//! Persistence and relocation core of a game-installation manager: the
//! schema migration planner, the record store for repositories, manifests,
//! installs and settings, and the decisions behind moving an install's
//! directories and switching its tool versions.

pub mod migration;
pub mod records;
pub mod store;
pub mod text;
pub mod relocation;
pub mod commands;
