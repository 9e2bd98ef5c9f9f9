pub mod args;
pub mod cli;
pub mod cmds;
pub mod dates;
pub mod display;
pub mod git;
pub mod repo;
pub mod tasks;
