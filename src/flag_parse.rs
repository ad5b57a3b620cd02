//! Reading build options from their command-line tokens.

use vstd::prelude::*;
use vstd::string::*;
use crate::decimal::parse_decimal;
use crate::flag_form::{
    apply_flag, apply_token, apply_tokens, bool_of, eq_pos, opt_str, parse_tokens, set_switch,
};
use crate::flag_names::FlagName;
use crate::options::{default_options, texts, BuildOptions, BuildOptionsView, Sanitizer};
use crate::text::{str_eq, strip_prefix};

verus! {

/// Why a list of tokens is not a set of build options.
#[derive(Clone, Debug, PartialEq, Eq)]
pub enum FlagError {
    /// A token that names no option, or gives an option a value it does not take.
    Unrecognized(String),
    /// Options that exclude each other were given together.
    Conflicting,
}

/// The position of the first `=` in `t`, or its length.
fn eq_position(t: &str) -> (r: usize)
    ensures
        r == eq_pos(t@),
        r <= t@.len(),
{
    let n = t.unicode_len();
    let mut i: usize = 0;
    assert(t@.subrange(0, n as int) =~= t@);
    while i < n
        invariant
            n == t@.len(),
            i <= n,
            eq_pos(t@) == i + eq_pos(t@.subrange(i as int, n as int)),
        decreases n - i,
    {
        let ghost rest = t@.subrange(i as int, n as int);
        assert(rest[0] == t@[i as int]);
        if t.get_char(i) == '=' {
            return i;
        }
        assert(rest.drop_first() =~= t@.subrange(i + 1, n as int));
        i += 1;
    }
    assert(t@.subrange(i as int, n as int) =~= Seq::<char>::empty());
    i
}

/// The boolean that `x` spells, if any.
fn bool_value(x: &str) -> (r: Option<bool>)
    ensures
        r == bool_of(x@),
{
    if str_eq(x, "true") {
        Some(true)
    } else if str_eq(x, "false") {
        Some(false)
    } else {
        None
    }
}

/// Sets the switch `f`, which takes no value.
fn set_dev(b: &mut BuildOptions)
    ensures
        final(b)@ == (BuildOptionsView { dev: true, ..old(b)@ }),
{
    b.dev = true;
}

fn set_release(b: &mut BuildOptions)
    ensures
        final(b)@ == (BuildOptionsView { release: true, ..old(b)@ }),
{
    b.release = true;
}

fn set_debug_assertions(b: &mut BuildOptions)
    ensures
        final(b)@ == (BuildOptionsView { debug_assertions: true, ..old(b)@ }),
{
    b.debug_assertions = true;
}

fn set_verbose(b: &mut BuildOptions)
    ensures
        final(b)@ == (BuildOptionsView { verbose: true, ..old(b)@ }),
{
    b.verbose = true;
}

fn set_no_default_features(b: &mut BuildOptions)
    ensures
        final(b)@ == (BuildOptionsView { no_default_features: true, ..old(b)@ }),
{
    b.no_default_features = true;
}

fn set_all_features(b: &mut BuildOptions)
    ensures
        final(b)@ == (BuildOptionsView { all_features: true, ..old(b)@ }),
{
    b.all_features = true;
}

fn set_build_std(b: &mut BuildOptions, x: bool)
    ensures
        final(b)@ == (BuildOptionsView { build_std: Some(x), ..old(b)@ }),
{
    b.build_std = Some(x);
}

fn set_careful_mode(b: &mut BuildOptions)
    ensures
        final(b)@ == (BuildOptionsView { careful_mode: true, ..old(b)@ }),
{
    b.careful_mode = true;
}

fn set_coverage(b: &mut BuildOptions)
    ensures
        final(b)@ == (BuildOptionsView { coverage: true, ..old(b)@ }),
{
    b.coverage = true;
}

fn set_no_cfg_fuzzing(b: &mut BuildOptions)
    ensures
        final(b)@ == (BuildOptionsView { no_cfg_fuzzing: true, ..old(b)@ }),
{
    b.no_cfg_fuzzing = true;
}

fn set_no_trace_compares(b: &mut BuildOptions)
    ensures
        final(b)@ == (BuildOptionsView { no_trace_compares: true, ..old(b)@ }),
{
    b.no_trace_compares = true;
}

fn set_trace_div(b: &mut BuildOptions)
    ensures
        final(b)@ == (BuildOptionsView { trace_div: true, ..old(b)@ }),
{
    b.trace_div = true;
}

fn set_trace_gep(b: &mut BuildOptions)
    ensures
        final(b)@ == (BuildOptionsView { trace_gep: true, ..old(b)@ }),
{
    b.trace_gep = true;
}

fn set_no_include_main_msvc(b: &mut BuildOptions)
    ensures
        final(b)@ == (BuildOptionsView { no_include_main_msvc: true, ..old(b)@ }),
{
    b.no_include_main_msvc = true;
}

/// Sets the switch `f`, which takes no value.
fn set_switch_exec(b: &mut BuildOptions, f: FlagName, value: Option<&str>) -> (ok: bool)
    ensures
        ok == (set_switch(old(b)@, f, opt_str(value)) is Some),
        ok ==> set_switch(old(b)@, f, opt_str(value)) == Some(final(b)@),
{
    if value.is_some() {
        return false;
    }
    match f {
        FlagName::Dev => set_dev(b),
        FlagName::Release => set_release(b),
        FlagName::DebugAssertions => set_debug_assertions(b),
        FlagName::Verbose => set_verbose(b),
        FlagName::NoDefaultFeatures => set_no_default_features(b),
        FlagName::AllFeatures => set_all_features(b),
        FlagName::Careful => set_careful_mode(b),
        FlagName::Coverage => set_coverage(b),
        FlagName::NoCfgFuzzing => set_no_cfg_fuzzing(b),
        FlagName::NoTraceCompares => set_no_trace_compares(b),
        FlagName::TraceDiv => set_trace_div(b),
        FlagName::TraceGep => set_trace_gep(b),
        FlagName::NoIncludeMainMsvc => set_no_include_main_msvc(b),
        _ => return false,
    }
    true
}

fn set_features(b: &mut BuildOptions, x: &str)
    ensures
        final(b)@ == (BuildOptionsView { features: Some(x@), ..old(b)@ }),
{
    b.features = Some(String::from_str(x));
}

fn set_target_dir(b: &mut BuildOptions, x: &str)
    ensures
        final(b)@ == (BuildOptionsView { target_dir: Some(x@), ..old(b)@ }),
{
    b.target_dir = Some(String::from_str(x));
}

fn set_triple(b: &mut BuildOptions, x: &str)
    ensures
        final(b)@ == (BuildOptionsView { triple: x@, ..old(b)@ }),
{
    b.triple = String::from_str(x);
}

fn set_sanitizer(b: &mut BuildOptions, x: Sanitizer)
    ensures
        final(b)@ == (BuildOptionsView { sanitizer: x, ..old(b)@ }),
{
    b.sanitizer = x;
}

fn set_codegen_units(b: &mut BuildOptions, x: usize)
    ensures
        final(b)@ == (BuildOptionsView { codegen_units: Some(x), ..old(b)@ }),
{
    b.codegen_units = Some(x);
}

fn set_strip_dead_code(b: &mut BuildOptions, x: Option<bool>)
    ensures
        final(b)@ == (BuildOptionsView { strip_dead_code: Some(x), ..old(b)@ }),
{
    b.strip_dead_code = Some(x);
}

fn set_disable_branch_folding(b: &mut BuildOptions, x: Option<bool>)
    ensures
        final(b)@ == (BuildOptionsView { disable_branch_folding: Some(x), ..old(b)@ }),
{
    b.disable_branch_folding = Some(x);
}

/// Applies option `f` with the value `value` (or none) to `b`.
fn apply_flag_exec(b: &mut BuildOptions, f: FlagName, value: Option<&str>) -> (ok: bool)
    ensures
        ok == (apply_flag(old(b)@, f, opt_str(value)) is Some),
        ok ==> apply_flag(old(b)@, f, opt_str(value)) == Some(final(b)@),
{
    reveal(apply_flag);
    match f {
        FlagName::Features => match value {
            Some(x) => {
                set_features(b, x);
                true
            },
            None => false,
        },
        FlagName::Sanitizer => match value {
            Some(x) => match Sanitizer::from_name(x) {
                Some(s) => {
                    set_sanitizer(b, s);
                    true
                },
                None => false,
            },
            None => false,
        },
        FlagName::Target => match value {
            Some(x) => {
                set_triple(b, x);
                true
            },
            None => false,
        },
        FlagName::TargetDir => match value {
            Some(x) => {
                set_target_dir(b, x);
                true
            },
            None => false,
        },
        FlagName::CodegenUnits => match value {
            Some(x) => match parse_decimal(x) {
                Some(n) => {
                    set_codegen_units(b, n);
                    true
                },
                None => false,
            },
            None => false,
        },
        FlagName::BuildStd => match value {
            None => {
                set_build_std(b, true);
                true
            },
            Some(x) => match bool_value(x) {
                Some(v) => {
                    set_build_std(b, v);
                    true
                },
                None => false,
            },
        },
        FlagName::StripDeadCode => match value {
            None => {
                set_strip_dead_code(b, None);
                true
            },
            Some(x) => match bool_value(x) {
                Some(v) => {
                    set_strip_dead_code(b, Some(v));
                    true
                },
                None => false,
            },
        },
        FlagName::DisableBranchFolding => match value {
            None => {
                set_disable_branch_folding(b, None);
                true
            },
            Some(x) => match bool_value(x) {
                Some(v) => {
                    set_disable_branch_folding(b, Some(v));
                    true
                },
                None => false,
            },
        },
        _ => set_switch_exec(b, f, value),
    }
}

/// Applies one token to `b`.
fn apply_token_exec(b: &mut BuildOptions, t: &str) -> (ok: bool)
    ensures
        ok == (apply_token(old(b)@, t@) is Some),
        ok ==> apply_token(old(b)@, t@) == Some(final(b)@),
{
    reveal(apply_token);
    proof {
        reveal_strlit("-Z");
    }
    match strip_prefix(t, "-Z") {
        Some(rest) => {
            assert(rest@ =~= t@.subrange(2, t@.len() as int));
            let ghost before = b.unstable_flags@;
            b.unstable_flags.push(String::from_str(rest));
            assert(texts(b.unstable_flags@) =~= texts(before).push(rest@));
            return true;
        },
        None => {},
    }
    let n = t.unicode_len();
    let k = eq_position(t);
    let name = t.substring_char(0, k);
    let value = if k < n {
        Some(t.substring_char(k + 1, n))
    } else {
        None
    };
    match FlagName::from_text(name) {
        Some(f) => apply_flag_exec(b, f, value),
        None => false,
    }
}

impl BuildOptions {
    /// Reads build options from their command-line tokens, starting from the
    /// defaults for the host triple `host`; later tokens override earlier ones
    /// and each `-Z<flag>` adds an unstable flag.
    pub fn parse_flags(tokens: &Vec<String>, host: &str) -> (r: Result<BuildOptions, FlagError>)
        ensures
            r matches Ok(b) ==> parse_tokens(texts(tokens@), host@) == Some(b@),
            r is Err ==> parse_tokens(texts(tokens@), host@) is None,
            r matches Err(FlagError::Unrecognized(_)) ==> apply_tokens(
                default_options(host@),
                texts(tokens@),
            ) is None,
            r matches Err(FlagError::Conflicting) ==> apply_tokens(
                default_options(host@),
                texts(tokens@),
            ) is Some,
    {
        reveal(apply_tokens);
        let ghost ts = texts(tokens@);
        let mut b = BuildOptions::defaults(host);
        let mut i: usize = 0;
        assert(ts.subrange(0, ts.len() as int) =~= ts);
        while i < tokens.len()
            invariant
                i <= tokens@.len(),
                ts == texts(tokens@),
                apply_tokens(default_options(host@), ts) == apply_tokens(
                    b@,
                    ts.subrange(i as int, ts.len() as int),
                ),
            decreases tokens@.len() - i,
        {
            let ghost rest = ts.subrange(i as int, ts.len() as int);
            assert(rest[0] == tokens@[i as int]@);
            assert(rest.drop_first() =~= ts.subrange(i + 1, ts.len() as int));
            let ghost b0 = b@;
            reveal(apply_tokens);
            assert(ts.len() == tokens@.len());
            assert(rest.len() > 0);
            assert(apply_tokens(b0, rest) == match apply_token(b0, rest[0]) {
                Some(c) => apply_tokens(c, rest.drop_first()),
                None => None,
            });
            let t = tokens[i].as_str();
            assert(t@ == rest[0]);
            let ok = apply_token_exec(&mut b, t);
            if !ok {
                assert(apply_tokens(b0, rest) is None);
                return Err(FlagError::Unrecognized(tokens[i].clone()));
            }
            i += 1;
        }
        assert(ts.subrange(i as int, ts.len() as int) =~= Seq::<Seq<char>>::empty());
        let consistent = !(b.dev && b.release) && !(b.all_features && (b.no_default_features
            || b.features.is_some()));
        if consistent {
            Ok(b)
        } else {
            Err(FlagError::Conflicting)
        }
    }
}

} // verus!
