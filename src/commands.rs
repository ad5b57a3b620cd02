//! The option sets of each command.

use vstd::prelude::*;
use vstd::string::*;
use crate::options::{BuildOptions, Sanitizer};

verus! {

/// The fuzz project directory, when it is not the default one.
#[derive(Clone, Debug, PartialEq, Eq)]
pub struct FuzzDirWrapper {
    pub fuzz_dir: Option<String>,
}

impl FuzzDirWrapper {
    /// The flag form: ` --fuzz-dir=<dir>` when a directory is given, else nothing.
    pub fn to_flag_string(&self) -> (r: String)
        ensures
            r@ == match self.fuzz_dir {
                Some(d) => " --fuzz-dir="@ + d@,
                None => Seq::<char>::empty(),
            },
    {
        match &self.fuzz_dir {
            Some(d) => String::from_str(" --fuzz-dir=").concat(d.as_str()),
            None => String::new(),
        }
    }
}

/// Options of the command that creates the fuzz project.
#[derive(Clone, Debug, PartialEq, Eq)]
pub struct Init {
    pub target: String,
    pub fuzzing_workspace: Option<bool>,
    pub fuzz_dir_wrapper: FuzzDirWrapper,
}

/// Options of the command that adds a fuzz target.
#[derive(Clone, Debug, PartialEq, Eq)]
pub struct Add {
    pub fuzz_dir_wrapper: FuzzDirWrapper,
    pub target: String,
}

/// Options of the command that builds fuzz targets.
#[derive(Clone, Debug, PartialEq, Eq)]
pub struct Build {
    pub build: BuildOptions,
    pub fuzz_dir_wrapper: FuzzDirWrapper,
    pub target: Option<String>,
}

/// Options of the command that type-checks fuzz targets.
#[derive(Clone, Debug, PartialEq, Eq)]
pub struct Check {
    pub build: BuildOptions,
    pub fuzz_dir_wrapper: FuzzDirWrapper,
    pub target: Option<String>,
}

/// Options of the command that lists the fuzz targets.
#[derive(Clone, Debug, PartialEq, Eq)]
pub struct List {
    pub fuzz_dir_wrapper: FuzzDirWrapper,
}

/// Options of the command that runs a fuzz target.
#[derive(Clone, Debug, PartialEq, Eq)]
pub struct Run {
    pub build: BuildOptions,
    pub target: String,
    /// Corpus directories or inputs; the target's own corpus when empty.
    pub corpus: Vec<String>,
    pub fuzz_dir_wrapper: FuzzDirWrapper,
    /// Number of concurrent jobs.
    pub jobs: u16,
    /// Arguments handed through to the fuzz engine.
    pub args: Vec<String>,
}

/// Options of the command that minimizes a corpus.
#[derive(Clone, Debug, PartialEq, Eq)]
pub struct Cmin {
    pub build: BuildOptions,
    pub fuzz_dir_wrapper: FuzzDirWrapper,
    pub target: String,
    /// The corpus to minimize; the target's own corpus when not given.
    pub corpus: Option<String>,
    pub args: Vec<String>,
}

/// Options of the command that minimizes a failing input.
#[derive(Clone, Debug, PartialEq, Eq)]
pub struct Tmin {
    pub build: BuildOptions,
    pub fuzz_dir_wrapper: FuzzDirWrapper,
    pub target: String,
    /// Number of minimization attempts.
    pub runs: u32,
    pub test_case: String,
    pub args: Vec<String>,
}

/// Options of the command that collects coverage.
#[derive(Clone, Debug, PartialEq, Eq)]
pub struct Coverage {
    pub build: BuildOptions,
    pub fuzz_dir_wrapper: FuzzDirWrapper,
    pub llvm_path: Option<String>,
    pub target: String,
    /// Corpus directories; the target's own corpus when empty.
    pub corpus: Vec<String>,
    pub args: Vec<String>,
}

/// Options of the command that prints the debug form of an input.
#[derive(Clone, Debug, PartialEq, Eq)]
pub struct Fmt {
    pub build: BuildOptions,
    pub fuzz_dir_wrapper: FuzzDirWrapper,
    pub target: String,
    pub input: String,
}

/// Options of the older form of the debug-print command.
#[derive(Clone, Debug, PartialEq, Eq)]
pub struct DebugFmt {
    pub build: BuildOptions,
    pub target: String,
    pub input: String,
}

/// Why the coverage command refuses its options.
#[derive(Clone, Copy, Debug, PartialEq, Eq, Structural)]
pub enum ConfigError {
    /// Rebuilding the standard library cannot be combined with coverage.
    BuildStdWithCoverage,
    /// The memory sanitizer needs the standard library rebuilt, which cannot be
    /// combined with coverage.
    MemorySanitizerWithCoverage,
}

impl Coverage {
    /// Checks the options and turns coverage instrumentation on. An explicit
    /// request to rebuild the standard library is refused, and so is the memory
    /// sanitizer, which always rebuilds it; then nothing changes.
    pub fn prepare(&mut self) -> (r: Result<(), ConfigError>)
        ensures
            r == Err::<(), ConfigError>(ConfigError::BuildStdWithCoverage) <==> old(self).build.build_std
                == Some(true),
            r == Err::<(), ConfigError>(ConfigError::MemorySanitizerWithCoverage) <==> (
            old(self).build.build_std != Some(true) && old(self).build.sanitizer == Sanitizer::Memory),
            r is Err ==> *final(self) == *old(self),
            r is Ok ==> final(self).build == (BuildOptions { coverage: true, ..old(self).build }),
            r is Ok ==> final(self).target == old(self).target && final(self).corpus == old(self).corpus
                && final(self).args == old(self).args,
    {
        if let Some(true) = self.build.build_std {
            return Err(ConfigError::BuildStdWithCoverage);
        }
        if let Sanitizer::Memory = self.build.sanitizer {
            return Err(ConfigError::MemorySanitizerWithCoverage);
        }
        self.build.coverage = true;
        Ok(())
    }
}

} // verus!
