//! The compiler abstraction: configuration of an external build tool, the
//! argument list of one invocation, and the structured outcome of a launch —
//! success with a deterministically named artifact, a compile rejection with
//! the tool's captured output, or a launch failure.
//!
//! Launching the process itself is operating-system work and stays outside
//! this library; a caller reports what the launch did through
//! [`LaunchOutcome`] and this module turns it into a [`CompilationResult`].

use vstd::prelude::*;

use crate::paths::base_name;
use crate::paths::base_name_of;
use crate::paths::join_under;
use crate::paths::joined;
use crate::paths::strip_extension;
use crate::paths::without_extension;

verus! {

/// Immutable configuration of the external build tool. Arguments are applied
/// in a fixed order — the fixed arguments, then the working-directory flag,
/// then the source file — because toolchains are flag-order sensitive.
#[derive(Debug)]
pub struct Compiler {
    /// Name or path of the build tool's executable.
    pub build: String,
    /// Fixed flags, passed first and in order.
    pub build_args: Vec<String>,
    /// Prefix prepended to the working directory's path to form one argument
    /// (an output-directory flag such as `-FE`).
    pub build_arg_working_dir: String,
}

/// What the operating system reported of one attempted launch of the build
/// tool.
#[derive(Debug)]
pub enum LaunchOutcome {
    /// The tool started and ran to completion: whether its exit status was a
    /// success, the exit code where one exists, and the raw bytes of the two
    /// output streams (not assumed to be valid text).
    Completed { succeeded: bool, exit_code: Option<i32>, stdout: Vec<u8>, stderr: Vec<u8> },
    /// The tool could not be started at all (missing binary, permission
    /// error); `cause` describes the underlying system error.
    NotStarted { cause: String },
}

/// The structured outcome of one compilation: exactly one variant holds.
#[derive(Debug)]
pub enum CompilationResult {
    /// The tool exited successfully; `artifact` is the working directory
    /// joined with the source file's base name, extension stripped — the
    /// build tool's output-naming convention, not probed on the filesystem.
    Success { artifact: String },
    /// The tool ran and rejected the program: its exit code and both output
    /// streams, verbatim, for the caller to display.
    CompileError { exit_code: Option<i32>, stdout: Vec<u8>, stderr: Vec<u8> },
    /// The tool could not be started — an environment fault, not a judgment
    /// on the program.
    LaunchFailure { cause: String },
}

/// The artifact path a successful build is expected to produce: the source
/// file's base name with its extension stripped, joined under the working
/// directory.
pub open spec fn artifact_path(source_file: Seq<char>, working_dir: Seq<char>) -> Seq<char> {
    joined(working_dir, without_extension(base_name(source_file)))
}

impl Compiler {
    /// The argument list of one invocation: the fixed arguments, then the
    /// working-directory flag prefix concatenated with the working
    /// directory's path as one argument, then the source file's path.
    pub open spec fn spec_command_args(self, source_file: Seq<char>, working_dir: Seq<char>) -> Seq<
        Seq<char>,
    > {
        self.build_args.deep_view() + seq![
            self.build_arg_working_dir@ + working_dir,
            source_file,
        ]
    }

    /// Builds the argument list for one invocation of the build tool.
    pub fn command_args(&self, source_file: &str, working_dir: &str) -> (r: Vec<String>)
        ensures
            r.deep_view() == self.spec_command_args(source_file@, working_dir@),
    {
        let ghost n = self.build_args@.len() as int;
        let mut args: Vec<String> = Vec::new();
        let mut i: usize = 0;
        while i < self.build_args.len()
            invariant
                i <= self.build_args.len(),
                args@.len() == i,
                forall|k: int| 0 <= k < i ==> args@[k]@ == self.build_args@[k]@,
            decreases self.build_args.len() - i,
        {
            args.push(self.build_args[i].clone());
            i = i + 1;
        }
        let mut dir_arg = self.build_arg_working_dir.clone();
        dir_arg.append(working_dir);
        args.push(dir_arg);
        args.push(source_file.to_owned());
        proof {
            let s = self.spec_command_args(source_file@, working_dir@);
            assert forall|k: int| 0 <= k < s.len() implies args.deep_view()[k] == s[k] by {
                if k < n {
                    assert(args@[k]@ == self.build_args@[k]@);
                }
            }
            assert(args.deep_view() =~= s);
        }
        args
    }

    /// Classifies one launch of the build tool against `source_file` with
    /// output directed into `working_dir`. A success exit status implies, by
    /// contract with the build tool, that the artifact stands at the
    /// conventional path; a non-zero exit carries the tool's output verbatim;
    /// a failure to start is kept apart from a rejection.
    pub fn compile(&self, source_file: &str, working_dir: &str, launch: LaunchOutcome) -> (r:
        CompilationResult)
        requires
            base_name(source_file@).len() > 0,
        ensures
            (launch matches LaunchOutcome::Completed { succeeded: true, .. } ==> (r matches
                CompilationResult::Success { artifact } && artifact@ == artifact_path(
                source_file@,
                working_dir@,
            ))),
            (launch matches LaunchOutcome::Completed {
                succeeded: false,
                exit_code,
                stdout,
                stderr,
            } ==> (r matches CompilationResult::CompileError {
                exit_code: rc,
                stdout: ro,
                stderr: re,
            } && rc == exit_code && ro@ == stdout@ && re@ == stderr@)),
            (launch matches LaunchOutcome::NotStarted { cause } ==> (r matches
                CompilationResult::LaunchFailure { cause: rc } && rc@ == cause@)),
    {
        match launch {
            LaunchOutcome::Completed { succeeded, exit_code, stdout, stderr } => {
                if succeeded {
                    let name = base_name_of(source_file);
                    let stem = strip_extension(name.as_str());
                    let artifact = join_under(working_dir, stem.as_str());
                    CompilationResult::Success { artifact }
                } else {
                    CompilationResult::CompileError { exit_code, stdout, stderr }
                }
            },
            LaunchOutcome::NotStarted { cause } => CompilationResult::LaunchFailure { cause },
        }
    }
}

} // verus!
