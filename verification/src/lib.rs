//! Acta: lightweight planning records for non-trivial software changes.
//!
//! The verified library holds the rules of the tool: which names are
//! accepted, how a topic branch is split, how the output of Git is read,
//! where plans and worktrees live, and the order of the steps of each
//! command. The executable in `app/` performs the input and output.
#![allow(unused_imports)]

pub mod text;
pub mod names;
pub mod git;
pub mod worktrees;
pub mod paths;
pub mod decimal;
pub mod numbering;
pub mod exclude;
pub mod flow;
pub mod clipboard;
pub mod start;
pub mod clarify;
pub mod init;
pub mod agentsmd;
pub mod pick;
pub mod cli;
