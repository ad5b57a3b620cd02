//! Build options and the command option sets that carry them.

use vstd::prelude::*;
use vstd::string::*;

verus! {

/// The runtime sanitizer that a fuzz target is built with.
#[derive(Clone, Copy, Debug, PartialEq, Eq, Structural)]
pub enum Sanitizer {
    Address,
    Leak,
    Memory,
    Thread,
    Disabled,
}

/// The name of a sanitizer as the compiler and the command line spell it.
pub open spec fn sanitizer_name(s: Sanitizer) -> Seq<char> {
    match s {
        Sanitizer::Address => "address"@,
        Sanitizer::Leak => "leak"@,
        Sanitizer::Memory => "memory"@,
        Sanitizer::Thread => "thread"@,
        Sanitizer::Disabled => "none"@,
    }
}

/// The display text of a sanitizer: its name, and nothing for no sanitizer.
pub open spec fn sanitizer_display(s: Sanitizer) -> Seq<char> {
    match s {
        Sanitizer::Disabled => Seq::empty(),
        _ => sanitizer_name(s),
    }
}

/// The sanitizer named `t`, if any.
pub open spec fn lookup_sanitizer(t: Seq<char>) -> Option<Sanitizer> {
    if t == "address"@ {
        Some(Sanitizer::Address)
    } else if t == "leak"@ {
        Some(Sanitizer::Leak)
    } else if t == "memory"@ {
        Some(Sanitizer::Memory)
    } else if t == "thread"@ {
        Some(Sanitizer::Thread)
    } else if t == "none"@ {
        Some(Sanitizer::Disabled)
    } else {
        None
    }
}

/// Every sanitizer is found again from its name.
pub proof fn lemma_sanitizer_name(s: Sanitizer)
    ensures
        lookup_sanitizer(sanitizer_name(s)) == Some(s),
{
    reveal_strlit("address");
    reveal_strlit("leak");
    reveal_strlit("memory");
    reveal_strlit("thread");
    reveal_strlit("none");
    assert("address"@.len() == 7);
    assert("leak"@.len() == 4);
    assert("memory"@.len() == 6);
    assert("thread"@.len() == 6);
    assert("none"@.len() == 4);
    assert("memory"@[0] != "thread"@[0]);
    assert("leak"@[0] != "none"@[0]);
}

impl Sanitizer {
    /// The sanitizer's name as the compiler and the command line spell it.
    pub fn name(&self) -> (r: &'static str)
        ensures
            r@ == sanitizer_name(*self),
    {
        match self {
            Sanitizer::Address => "address",
            Sanitizer::Leak => "leak",
            Sanitizer::Memory => "memory",
            Sanitizer::Thread => "thread",
            Sanitizer::Disabled => "none",
        }
    }

    /// The sanitizer's display text: its name, and nothing for no sanitizer.
    pub fn to_string(&self) -> (r: String)
        ensures
            r@ == sanitizer_display(*self),
    {
        match self {
            Sanitizer::Disabled => String::new(),
            _ => String::from_str(self.name()),
        }
    }

    /// The sanitizer named `t`, if any.
    pub fn from_name(t: &str) -> (r: Option<Sanitizer>)
        ensures
            r == lookup_sanitizer(t@),
    {
        if crate::text::str_eq(t, "address") {
            Some(Sanitizer::Address)
        } else if crate::text::str_eq(t, "leak") {
            Some(Sanitizer::Leak)
        } else if crate::text::str_eq(t, "memory") {
            Some(Sanitizer::Memory)
        } else if crate::text::str_eq(t, "thread") {
            Some(Sanitizer::Thread)
        } else if crate::text::str_eq(t, "none") {
            Some(Sanitizer::Disabled)
        } else {
            None
        }
    }
}

/// Whether the builder compiles the fuzz targets or only type-checks them.
#[derive(Clone, Copy, Debug, PartialEq, Eq, Structural)]
pub enum BuildMode {
    Build,
    Check,
}

/// How a fuzz target is compiled.
#[derive(Clone, Debug, PartialEq, Eq)]
pub struct BuildOptions {
    /// Build without optimizations.
    pub dev: bool,
    /// Build with optimizations (the default when `dev` is not set).
    pub release: bool,
    /// Build with debug assertions and overflow checks.
    pub debug_assertions: bool,
    /// Verbose output from the builder.
    pub verbose: bool,
    /// Disable the default features of the crate.
    pub no_default_features: bool,
    /// Enable all features of the crate.
    pub all_features: bool,
    /// Enable the given features.
    pub features: Option<String>,
    /// The sanitizer to build with.
    pub sanitizer: Sanitizer,
    /// Rebuild the standard library with the fuzz target's settings: not
    /// given (which rebuilds it, except for coverage builds), or given a value.
    pub build_std: Option<bool>,
    /// Build the standard library with extra checks as well.
    pub careful_mode: bool,
    /// The target triple.
    pub triple: String,
    /// Unstable flags handed to the builder, in order.
    pub unstable_flags: Vec<String>,
    /// A build directory other than the builder's default.
    pub target_dir: Option<String>,
    /// Instrument for source-based coverage.
    pub coverage: bool,
    /// Number of codegen units.
    pub codegen_units: Option<usize>,
    /// Strip dead code: not given, given without a value, or given a value.
    pub strip_dead_code: Option<Option<bool>>,
    /// Do not set the `fuzzing` configuration.
    pub no_cfg_fuzzing: bool,
    /// Do not instrument comparisons.
    pub no_trace_compares: bool,
    /// Instrument integer divisions.
    pub trace_div: bool,
    /// Instrument pointer arithmetic.
    pub trace_gep: bool,
    /// Disable branch folding: not given, given without a value, or given a value.
    pub disable_branch_folding: Option<Option<bool>>,
    /// Do not force the linker to keep `main` on MSVC targets.
    pub no_include_main_msvc: bool,
}

/// The mathematical value of a set of build options.
pub struct BuildOptionsView {
    pub dev: bool,
    pub release: bool,
    pub debug_assertions: bool,
    pub verbose: bool,
    pub no_default_features: bool,
    pub all_features: bool,
    pub features: Option<Seq<char>>,
    pub sanitizer: Sanitizer,
    pub build_std: Option<bool>,
    pub careful_mode: bool,
    pub triple: Seq<char>,
    pub unstable_flags: Seq<Seq<char>>,
    pub target_dir: Option<Seq<char>>,
    pub coverage: bool,
    pub codegen_units: Option<usize>,
    pub strip_dead_code: Option<Option<bool>>,
    pub no_cfg_fuzzing: bool,
    pub no_trace_compares: bool,
    pub trace_div: bool,
    pub trace_gep: bool,
    pub disable_branch_folding: Option<Option<bool>>,
    pub no_include_main_msvc: bool,
}

/// The characters of an optional string.
pub open spec fn opt_text(o: Option<String>) -> Option<Seq<char>> {
    match o {
        Some(s) => Some(s@),
        None => None,
    }
}

/// The characters of each string of a sequence.
pub open spec fn texts(v: Seq<String>) -> Seq<Seq<char>> {
    v.map_values(|s: String| s@)
}

impl View for BuildOptions {
    type V = BuildOptionsView;

    open spec fn view(&self) -> BuildOptionsView {
        BuildOptionsView {
            dev: self.dev,
            release: self.release,
            debug_assertions: self.debug_assertions,
            verbose: self.verbose,
            no_default_features: self.no_default_features,
            all_features: self.all_features,
            features: opt_text(self.features),
            sanitizer: self.sanitizer,
            build_std: self.build_std,
            careful_mode: self.careful_mode,
            triple: self.triple@,
            unstable_flags: texts(self.unstable_flags@),
            target_dir: opt_text(self.target_dir),
            coverage: self.coverage,
            codegen_units: self.codegen_units,
            strip_dead_code: self.strip_dead_code,
            no_cfg_fuzzing: self.no_cfg_fuzzing,
            no_trace_compares: self.no_trace_compares,
            trace_div: self.trace_div,
            trace_gep: self.trace_gep,
            disable_branch_folding: self.disable_branch_folding,
            no_include_main_msvc: self.no_include_main_msvc,
        }
    }
}

/// The options that hold when none is given, for the host triple `host`.
pub open spec fn default_options(host: Seq<char>) -> BuildOptionsView {
    BuildOptionsView {
        dev: false,
        release: false,
        debug_assertions: false,
        verbose: false,
        no_default_features: false,
        all_features: false,
        features: None,
        sanitizer: Sanitizer::Address,
        build_std: None,
        careful_mode: false,
        triple: host,
        unstable_flags: Seq::empty(),
        target_dir: None,
        coverage: false,
        codegen_units: None,
        strip_dead_code: None,
        no_cfg_fuzzing: false,
        no_trace_compares: false,
        trace_div: false,
        trace_gep: false,
        disable_branch_folding: None,
        no_include_main_msvc: false,
    }
}

/// Options that may be given together: development and release mode exclude
/// each other, and so do all features and a feature selection.
pub open spec fn options_consistent(v: BuildOptionsView) -> bool {
    &&& !(v.dev && v.release)
    &&& !(v.all_features && (v.no_default_features || v.features is Some))
}

/// The value that a three-way option has when it is given without a value or
/// not given: `absent` when not given, true when given bare.
pub open spec fn tristate_value(o: Option<Option<bool>>, absent: bool) -> bool {
    match o {
        None => absent,
        Some(None) => true,
        Some(Some(b)) => b,
    }
}

/// Relies on `current_platform::CURRENT_PLATFORM`: the target triple this
/// library was compiled for, used as the default target.
#[verifier::external_body]
pub fn default_target() -> (r: String) {
    String::from(current_platform::CURRENT_PLATFORM)
}

impl BuildOptions {
    /// The options that hold when none is given, for the triple this library
    /// was compiled for.
    pub fn host_defaults() -> (r: BuildOptions)
        ensures
            r@ == default_options(r.triple@),
    {
        let host = default_target();
        BuildOptions::defaults(host.as_str())
    }

    /// The options that hold when none is given, built for the target `triple`.
    pub fn defaults(triple: &str) -> (r: BuildOptions)
        ensures
            r@ == default_options(triple@),
    {
        let r = BuildOptions {
            dev: false,
            release: false,
            debug_assertions: false,
            verbose: false,
            no_default_features: false,
            all_features: false,
            features: None,
            sanitizer: Sanitizer::Address,
            build_std: None,
            careful_mode: false,
            triple: String::from_str(triple),
            unstable_flags: Vec::new(),
            target_dir: None,
            coverage: false,
            codegen_units: None,
            strip_dead_code: None,
            no_cfg_fuzzing: false,
            no_trace_compares: false,
            trace_div: false,
            trace_gep: false,
            disable_branch_folding: None,
            no_include_main_msvc: false,
        };
        assert(r@.unstable_flags =~= Seq::<Seq<char>>::empty());
        r
    }

    /// Whether dead code is stripped.
    pub fn strips_dead_code(&self) -> (r: bool)
        ensures
            r == tristate_value(self.strip_dead_code, false),
    {
        match self.strip_dead_code {
            None => false,
            Some(None) => true,
            Some(Some(b)) => b,
        }
    }

    /// Whether branch folding is disabled; it is unless turned off.
    pub fn disables_branch_folding(&self) -> (r: bool)
        ensures
            r == tristate_value(self.disable_branch_folding, true),
    {
        match self.disable_branch_folding {
            None => true,
            Some(None) => true,
            Some(Some(b)) => b,
        }
    }
}

} // verus!
