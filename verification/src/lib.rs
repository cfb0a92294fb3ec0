//! Build orchestration for turning a named piece of source text into a
//! loadable shared library.
//!
//! The crate holds the decisions of the pipeline and proves them: which
//! manifest is generated, where each file lives, how the toolchain is to be
//! invoked, what each report of the outside world means, and that the
//! workspace is torn down on every path. It performs no I/O itself: a driver
//! carries out each [`pipeline::Action`] and hands back a
//! [`pipeline::Event`].
//!
//! - [`name`]: what a module name and a build identifier may look like.
//! - [`request`]: a validated build request.
//! - [`manifest`]: the manifest of the generated project.
//! - [`layout`]: the paths of workspaces and libraries, and why the trees of
//!   different builds never meet.
//! - [`toolchain`]: the invocation of the toolchain and the meaning of its
//!   exit code.
//! - [`error`]: the errors of a build.
//! - [`pipeline`]: the state machine that sequences a build.
//! - [`trace`]: what holds of every run of that state machine.

pub mod error;
pub mod layout;
pub mod manifest;
pub mod name;
pub mod pipeline;
pub mod request;
pub mod toolchain;
pub mod trace;
