//! A build orchestrator for small native projects, as a verified library.
//!
//! From a project descriptor the library resolves defaults, toolchain and
//! library flags, discovers the sources, assembles the flag strings and
//! synthesizes the build plan that the build executor carries out; and it
//! says how the steps before and after the build are run and what they are
//! told. The library decides and the caller acts: every external program is
//! described by an [`command::Invocation`] that the caller runs, and its
//! end is reported back as an [`command::Outcome`].
//!
//! Every function carries a contract over the mathematical view of its
//! arguments, and the laws that tie the functions together are proved
//! beside them.

pub mod assemble;
pub mod clock;
pub mod command;
pub mod dependencies;
pub mod descriptor;
pub mod error;
pub mod flags;
mod host;
pub mod libraries;
pub mod makefile;
pub mod operations;
pub mod pipeline;
pub mod plan;
pub mod project;
pub mod scripts;
pub mod sources;
pub mod text;
