//! Project scaffolding: the decisions behind creating a project and adding
//! executable entry scripts to one, with the file system and the build tool
//! kept at arm's length.
pub mod command;
pub mod handlers;
pub mod paths;
pub mod planner;
pub mod world;
