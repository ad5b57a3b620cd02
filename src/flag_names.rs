//! The long and short option names of the build options.

use vstd::prelude::*;
use crate::text::str_eq;

verus! {

/// One option of the build-option command line.
#[derive(Clone, Copy, Debug, PartialEq, Eq, Structural)]
pub enum FlagName {
    Dev,
    Release,
    DebugAssertions,
    Verbose,
    NoDefaultFeatures,
    AllFeatures,
    Features,
    Sanitizer,
    BuildStd,
    Careful,
    Target,
    TargetDir,
    Coverage,
    CodegenUnits,
    StripDeadCode,
    NoCfgFuzzing,
    NoTraceCompares,
    TraceDiv,
    TraceGep,
    DisableBranchFolding,
    NoIncludeMainMsvc,
}

/// The text of an option name as it stands on the command line.
pub open spec fn name_text(f: FlagName) -> Seq<char> {
    match f {
        FlagName::Dev => "-D"@,
        FlagName::Release => "-O"@,
        FlagName::DebugAssertions => "-a"@,
        FlagName::Verbose => "-v"@,
        FlagName::NoDefaultFeatures => "--no-default-features"@,
        FlagName::AllFeatures => "--all-features"@,
        FlagName::Features => "--features"@,
        FlagName::Sanitizer => "--sanitizer"@,
        FlagName::BuildStd => "--build-std"@,
        FlagName::Careful => "--careful"@,
        FlagName::Target => "--target"@,
        FlagName::TargetDir => "--target-dir"@,
        FlagName::Coverage => "--coverage"@,
        FlagName::CodegenUnits => "--codegen-units"@,
        FlagName::StripDeadCode => "--strip-dead-code"@,
        FlagName::NoCfgFuzzing => "--no-cfg-fuzzing"@,
        FlagName::NoTraceCompares => "--no-trace-compares"@,
        FlagName::TraceDiv => "--trace-div"@,
        FlagName::TraceGep => "--trace-gep"@,
        FlagName::DisableBranchFolding => "--disable-branch-folding"@,
        FlagName::NoIncludeMainMsvc => "--no-include-main-msvc"@,
    }
}

/// The option whose name is `t`, if any.
#[verifier::opaque]
pub open spec fn lookup_name(t: Seq<char>) -> Option<FlagName> {
    if t == "-D"@ {
        Some(FlagName::Dev)
    } else if t == "-O"@ {
        Some(FlagName::Release)
    } else if t == "-a"@ {
        Some(FlagName::DebugAssertions)
    } else if t == "-v"@ {
        Some(FlagName::Verbose)
    } else if t == "--no-default-features"@ {
        Some(FlagName::NoDefaultFeatures)
    } else if t == "--all-features"@ {
        Some(FlagName::AllFeatures)
    } else if t == "--features"@ {
        Some(FlagName::Features)
    } else if t == "--sanitizer"@ {
        Some(FlagName::Sanitizer)
    } else if t == "--build-std"@ {
        Some(FlagName::BuildStd)
    } else if t == "--careful"@ {
        Some(FlagName::Careful)
    } else if t == "--target"@ {
        Some(FlagName::Target)
    } else if t == "--target-dir"@ {
        Some(FlagName::TargetDir)
    } else if t == "--coverage"@ {
        Some(FlagName::Coverage)
    } else if t == "--codegen-units"@ {
        Some(FlagName::CodegenUnits)
    } else if t == "--strip-dead-code"@ {
        Some(FlagName::StripDeadCode)
    } else if t == "--no-cfg-fuzzing"@ {
        Some(FlagName::NoCfgFuzzing)
    } else if t == "--no-trace-compares"@ {
        Some(FlagName::NoTraceCompares)
    } else if t == "--trace-div"@ {
        Some(FlagName::TraceDiv)
    } else if t == "--trace-gep"@ {
        Some(FlagName::TraceGep)
    } else if t == "--disable-branch-folding"@ {
        Some(FlagName::DisableBranchFolding)
    } else if t == "--no-include-main-msvc"@ {
        Some(FlagName::NoIncludeMainMsvc)
    } else {
        None
    }
}

/// Every option name is found again by `lookup_name`, holds no `=`, and does
/// not begin with `-Z`.
pub proof fn lemma_name_text(f: FlagName)
    ensures
        lookup_name(name_text(f)) == Some(f),
        forall|i: int| 0 <= i < name_text(f).len() ==> name_text(f)[i] != '=',
        name_text(f).len() >= 2,
        name_text(f)[1] != 'Z',
{
    reveal(lookup_name);
    reveal_strlit("-D");
    reveal_strlit("-O");
    reveal_strlit("-a");
    reveal_strlit("-v");
    reveal_strlit("--no-default-features");
    reveal_strlit("--all-features");
    reveal_strlit("--features");
    reveal_strlit("--sanitizer");
    reveal_strlit("--build-std");
    reveal_strlit("--careful");
    reveal_strlit("--target");
    reveal_strlit("--target-dir");
    reveal_strlit("--coverage");
    reveal_strlit("--codegen-units");
    reveal_strlit("--strip-dead-code");
    reveal_strlit("--no-cfg-fuzzing");
    reveal_strlit("--no-trace-compares");
    reveal_strlit("--trace-div");
    reveal_strlit("--trace-gep");
    reveal_strlit("--disable-branch-folding");
    reveal_strlit("--no-include-main-msvc");
    assert("-D"@.len() == 2);
    assert("-O"@.len() == 2);
    assert("-a"@.len() == 2);
    assert("-v"@.len() == 2);
    assert("--no-default-features"@.len() == 21);
    assert("--all-features"@.len() == 14);
    assert("--features"@.len() == 10);
    assert("--sanitizer"@.len() == 11);
    assert("--build-std"@.len() == 11);
    assert("--careful"@.len() == 9);
    assert("--target"@.len() == 8);
    assert("--target-dir"@.len() == 12);
    assert("--coverage"@.len() == 10);
    assert("--codegen-units"@.len() == 15);
    assert("--strip-dead-code"@.len() == 17);
    assert("--no-cfg-fuzzing"@.len() == 16);
    assert("--no-trace-compares"@.len() == 19);
    assert("--trace-div"@.len() == 11);
    assert("--trace-gep"@.len() == 11);
    assert("--disable-branch-folding"@.len() == 24);
    assert("--no-include-main-msvc"@.len() == 22);
    assert("-D"@[1] != "-O"@[1]);
    assert("-D"@[1] != "-a"@[1]);
    assert("-D"@[1] != "-v"@[1]);
    assert("-O"@[1] != "-a"@[1]);
    assert("-O"@[1] != "-v"@[1]);
    assert("-a"@[1] != "-v"@[1]);
    assert("--features"@[2] != "--coverage"@[2]);
    assert("--sanitizer"@[2] != "--build-std"@[2]);
    assert("--sanitizer"@[2] != "--trace-div"@[2]);
    assert("--sanitizer"@[2] != "--trace-gep"@[2]);
    assert("--build-std"@[2] != "--trace-div"@[2]);
    assert("--build-std"@[2] != "--trace-gep"@[2]);
    assert("--trace-div"@[8] != "--trace-gep"@[8]);
    match f {
        FlagName::Dev => assert(lookup_name("-D"@) == Some(FlagName::Dev)),
        FlagName::Release => assert(lookup_name("-O"@) == Some(FlagName::Release)),
        FlagName::DebugAssertions => assert(lookup_name("-a"@) == Some(FlagName::DebugAssertions)),
        FlagName::Verbose => assert(lookup_name("-v"@) == Some(FlagName::Verbose)),
        FlagName::NoDefaultFeatures => assert(lookup_name("--no-default-features"@) == Some(FlagName::NoDefaultFeatures)),
        FlagName::AllFeatures => assert(lookup_name("--all-features"@) == Some(FlagName::AllFeatures)),
        FlagName::Features => assert(lookup_name("--features"@) == Some(FlagName::Features)),
        FlagName::Sanitizer => assert(lookup_name("--sanitizer"@) == Some(FlagName::Sanitizer)),
        FlagName::BuildStd => assert(lookup_name("--build-std"@) == Some(FlagName::BuildStd)),
        FlagName::Careful => assert(lookup_name("--careful"@) == Some(FlagName::Careful)),
        FlagName::Target => assert(lookup_name("--target"@) == Some(FlagName::Target)),
        FlagName::TargetDir => assert(lookup_name("--target-dir"@) == Some(FlagName::TargetDir)),
        FlagName::Coverage => assert(lookup_name("--coverage"@) == Some(FlagName::Coverage)),
        FlagName::CodegenUnits => assert(lookup_name("--codegen-units"@) == Some(FlagName::CodegenUnits)),
        FlagName::StripDeadCode => assert(lookup_name("--strip-dead-code"@) == Some(FlagName::StripDeadCode)),
        FlagName::NoCfgFuzzing => assert(lookup_name("--no-cfg-fuzzing"@) == Some(FlagName::NoCfgFuzzing)),
        FlagName::NoTraceCompares => assert(lookup_name("--no-trace-compares"@) == Some(FlagName::NoTraceCompares)),
        FlagName::TraceDiv => assert(lookup_name("--trace-div"@) == Some(FlagName::TraceDiv)),
        FlagName::TraceGep => assert(lookup_name("--trace-gep"@) == Some(FlagName::TraceGep)),
        FlagName::DisableBranchFolding => assert(lookup_name("--disable-branch-folding"@) == Some(FlagName::DisableBranchFolding)),
        FlagName::NoIncludeMainMsvc => assert(lookup_name("--no-include-main-msvc"@) == Some(FlagName::NoIncludeMainMsvc)),
    }
}

impl FlagName {
    /// The option's name as it stands on the command line.
    pub fn text(&self) -> (r: &'static str)
        ensures
            r@ == name_text(*self),
    {
        match self {
            FlagName::Dev => "-D",
            FlagName::Release => "-O",
            FlagName::DebugAssertions => "-a",
            FlagName::Verbose => "-v",
            FlagName::NoDefaultFeatures => "--no-default-features",
            FlagName::AllFeatures => "--all-features",
            FlagName::Features => "--features",
            FlagName::Sanitizer => "--sanitizer",
            FlagName::BuildStd => "--build-std",
            FlagName::Careful => "--careful",
            FlagName::Target => "--target",
            FlagName::TargetDir => "--target-dir",
            FlagName::Coverage => "--coverage",
            FlagName::CodegenUnits => "--codegen-units",
            FlagName::StripDeadCode => "--strip-dead-code",
            FlagName::NoCfgFuzzing => "--no-cfg-fuzzing",
            FlagName::NoTraceCompares => "--no-trace-compares",
            FlagName::TraceDiv => "--trace-div",
            FlagName::TraceGep => "--trace-gep",
            FlagName::DisableBranchFolding => "--disable-branch-folding",
            FlagName::NoIncludeMainMsvc => "--no-include-main-msvc",
        }
    }

    /// The option named `t`, if any.
    pub fn from_text(t: &str) -> (r: Option<FlagName>)
        ensures
            r == lookup_name(t@),
    {
        reveal(lookup_name);
        if str_eq(t, "-D") {
            Some(FlagName::Dev)
        } else if str_eq(t, "-O") {
            Some(FlagName::Release)
        } else if str_eq(t, "-a") {
            Some(FlagName::DebugAssertions)
        } else if str_eq(t, "-v") {
            Some(FlagName::Verbose)
        } else if str_eq(t, "--no-default-features") {
            Some(FlagName::NoDefaultFeatures)
        } else if str_eq(t, "--all-features") {
            Some(FlagName::AllFeatures)
        } else if str_eq(t, "--features") {
            Some(FlagName::Features)
        } else if str_eq(t, "--sanitizer") {
            Some(FlagName::Sanitizer)
        } else if str_eq(t, "--build-std") {
            Some(FlagName::BuildStd)
        } else if str_eq(t, "--careful") {
            Some(FlagName::Careful)
        } else if str_eq(t, "--target") {
            Some(FlagName::Target)
        } else if str_eq(t, "--target-dir") {
            Some(FlagName::TargetDir)
        } else if str_eq(t, "--coverage") {
            Some(FlagName::Coverage)
        } else if str_eq(t, "--codegen-units") {
            Some(FlagName::CodegenUnits)
        } else if str_eq(t, "--strip-dead-code") {
            Some(FlagName::StripDeadCode)
        } else if str_eq(t, "--no-cfg-fuzzing") {
            Some(FlagName::NoCfgFuzzing)
        } else if str_eq(t, "--no-trace-compares") {
            Some(FlagName::NoTraceCompares)
        } else if str_eq(t, "--trace-div") {
            Some(FlagName::TraceDiv)
        } else if str_eq(t, "--trace-gep") {
            Some(FlagName::TraceGep)
        } else if str_eq(t, "--disable-branch-folding") {
            Some(FlagName::DisableBranchFolding)
        } else if str_eq(t, "--no-include-main-msvc") {
            Some(FlagName::NoIncludeMainMsvc)
        } else {
            None
        }
    }
}

} // verus!
