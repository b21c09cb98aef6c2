//! Core of an automated solution judge: compiling a submitted program with an
//! external build tool and discovering (input, expected-answer) test-case
//! pairs in a directory by filename convention.
//!
//! The two components are independent. [`compiler`] states what each launch
//! outcome of the build tool means — an artifact at a conventional path, a
//! rejection with the tool's output verbatim, or a launch failure kept apart
//! from a rejection. [`discovery`] turns a directory listing into validated
//! test-case pairs under a configurable naming pattern, reporting ambiguous
//! identifiers and missing answer files without aborting the pass. Process
//! launching and filesystem listing stay with the caller; the library takes
//! and returns plain values and is verified over them.

pub mod compiler;
pub mod discovery;
pub mod paths;
pub mod pattern;
pub mod template;
