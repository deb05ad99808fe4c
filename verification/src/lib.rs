//! A verified core for a Gentoo Linux system updater: the exact command
//! lines it issues to the package manager, the pure classifiers that turn
//! captured tool output into structured facts, the kernel-preservation
//! safety guard, and the sequential workflow machine that drives one whole
//! update run. A thin terminal front end performs the machine's directives;
//! every decision is taken here, under contract.

pub mod args;
pub mod config;
pub mod guard;
pub mod linux;
pub mod portage;
pub mod prompt;
pub mod rotational;
pub mod system_command;
pub mod tabulate;
pub mod text;
pub mod typedefs;
pub mod workflow;
