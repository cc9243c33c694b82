//! Toolchain selection: parse a version requirement, resolve it to a concrete
//! version, and activate that version for the invoking shell through a
//! side-channel file that the shell integration sources afterwards.
pub mod version;
pub mod requirement;
pub mod resolve;
pub mod activation;
pub mod session;
pub mod command;
