//! How the toolchain is invoked, and what its exit means.
//!
//! The toolchain is run as a subprocess inside the workspace and asked for an
//! optimized build. It gets no input, and nothing it prints is kept: the exit
//! code is all that is looked at, and only code zero counts as success.

use vstd::prelude::*;
use vstd::string::*;

verus! {

/// What a standard stream of the subprocess is connected to.
#[derive(Clone, Copy, Debug, PartialEq, Eq, Structural)]
pub enum Stream {
    /// Nothing: reads see the end of input, writes are discarded.
    Null,
    /// The stream of the calling process.
    Inherit,
}

/// An invocation of the toolchain, as plain values.
pub struct InvocationModel {
    pub program: Seq<char>,
    pub args: Seq<Seq<char>>,
    pub working_dir: Seq<char>,
    pub stdin: Stream,
    pub stdout: Stream,
    pub stderr: Stream,
}

impl InvocationModel {
    /// The optimized build of the project in `working_dir`: `cargo build
    /// --release`, cut off from all three standard streams.
    pub open spec fn optimized_build(working_dir: Seq<char>) -> InvocationModel {
        InvocationModel {
            program: "cargo"@,
            args: seq!["build"@, "--release"@],
            working_dir,
            stdin: Stream::Null,
            stdout: Stream::Null,
            stderr: Stream::Null,
        }
    }
}

/// An invocation of the toolchain: what to run, with which arguments, where,
/// and connected to what.
#[derive(Debug, PartialEq, Eq)]
pub struct Invocation {
    pub program: String,
    pub args: Vec<String>,
    pub working_dir: String,
    pub stdin: Stream,
    pub stdout: Stream,
    pub stderr: Stream,
}

impl View for Invocation {
    type V = InvocationModel;

    open spec fn view(&self) -> InvocationModel {
        InvocationModel {
            program: self.program@,
            args: self.args.deep_view(),
            working_dir: self.working_dir@,
            stdin: self.stdin,
            stdout: self.stdout,
            stderr: self.stderr,
        }
    }
}

impl Invocation {
    /// The optimized build of the project in `working_dir`.
    pub fn optimized_build(working_dir: &str) -> (invocation: Invocation)
        ensures
            invocation@ == InvocationModel::optimized_build(working_dir@),
    {
        let mut args: Vec<String> = Vec::new();
        args.push(String::from_str("build"));
        args.push(String::from_str("--release"));
        assert(args.deep_view() =~= seq!["build"@, "--release"@]);
        Invocation {
            program: String::from_str("cargo"),
            args,
            working_dir: String::from_str(working_dir),
            stdin: Stream::Null,
            stdout: Stream::Null,
            stderr: Stream::Null,
        }
    }
}

/// How a run of the toolchain ended.
#[derive(Clone, Copy, Debug, PartialEq, Eq, Structural)]
pub struct BuildOutcome {
    /// The exit code, or `None` where the process ended without one.
    pub exit_code: Option<i32>,
    /// Whether the build counts as successful.
    pub succeeded: bool,
}

impl BuildOutcome {
    /// The outcome of a run that ended with `exit_code`: a success exactly
    /// when the code is zero.
    pub open spec fn of(exit_code: Option<i32>) -> BuildOutcome {
        BuildOutcome { exit_code, succeeded: exit_code == Some(0i32) }
    }

    /// The outcome of a run that ended with `exit_code`.
    pub fn from_exit_code(exit_code: Option<i32>) -> (outcome: BuildOutcome)
        ensures
            outcome == BuildOutcome::of(exit_code),
    {
        let succeeded = match exit_code {
            Some(code) => code == 0,
            None => false,
        };
        BuildOutcome { exit_code, succeeded }
    }
}

} // verus!
