//! The command-line form of build options: rendering it and reading it back.

use vstd::prelude::*;
use vstd::string::*;
use crate::decimal::{decimal_text, decimal_value, is_decimal, lemma_decimal_round_trip, to_decimal};
use crate::flag_names::{lemma_name_text, lookup_name, name_text, FlagName};
use crate::options::{
    default_options, lemma_sanitizer_name, lookup_sanitizer, opt_text, options_consistent,
    sanitizer_name, texts, BuildOptions, BuildOptionsView, Sanitizer,
};
use crate::text::{has_prefix, str_eq};

verus! {

/// The text of a boolean option value.
pub open spec fn bool_text(b: bool) -> Seq<char> {
    if b {
        "true"@
    } else {
        "false"@
    }
}

/// The boolean that `x` spells, if any.
pub open spec fn bool_of(x: Seq<char>) -> Option<bool> {
    if x == "true"@ {
        Some(true)
    } else if x == "false"@ {
        Some(false)
    } else {
        None
    }
}

/// `name=value`.
pub open spec fn valued(f: FlagName, x: Seq<char>) -> Seq<char> {
    name_text(f) + "="@ + x
}

pub open spec fn switch_tokens(on: bool, f: FlagName) -> Seq<Seq<char>> {
    if on {
        seq![name_text(f)]
    } else {
        Seq::empty()
    }
}

pub open spec fn value_tokens(f: FlagName, o: Option<Seq<char>>) -> Seq<Seq<char>> {
    match o {
        Some(x) => seq![valued(f, x)],
        None => Seq::empty(),
    }
}

pub open spec fn tristate_tokens(f: FlagName, o: Option<Option<bool>>) -> Seq<Seq<char>> {
    match o {
        None => Seq::empty(),
        Some(None) => seq![name_text(f)],
        Some(Some(b)) => seq![valued(f, bool_text(b))],
    }
}

pub open spec fn opt_bool_tokens(f: FlagName, o: Option<bool>) -> Seq<Seq<char>> {
    match o {
        None => Seq::empty(),
        Some(b) => seq![valued(f, bool_text(b))],
    }
}

pub open spec fn sanitizer_tokens(s: Sanitizer) -> Seq<Seq<char>> {
    if s == Sanitizer::Address {
        Seq::empty()
    } else {
        seq![valued(FlagName::Sanitizer, sanitizer_name(s))]
    }
}

pub open spec fn triple_tokens(triple: Seq<char>, host: Seq<char>) -> Seq<Seq<char>> {
    if triple == host {
        Seq::empty()
    } else {
        seq![valued(FlagName::Target, triple)]
    }
}

pub open spec fn unstable_tokens(fs: Seq<Seq<char>>) -> Seq<Seq<char>> {
    fs.map_values(|x: Seq<char>| "-Z"@ + x)
}

pub open spec fn codegen_tokens(o: Option<usize>) -> Seq<Seq<char>> {
    match o {
        Some(n) => seq![valued(FlagName::CodegenUnits, decimal_text(n as nat))],
        None => Seq::empty(),
    }
}

/// The command-line tokens of a set of build options, for the host triple
/// `host`: an option at its default value is left out.
pub open spec fn flag_tokens(v: BuildOptionsView, host: Seq<char>) -> Seq<Seq<char>> {
    switch_tokens(v.dev, FlagName::Dev)
        + switch_tokens(v.release, FlagName::Release)
        + switch_tokens(v.debug_assertions, FlagName::DebugAssertions)
        + switch_tokens(v.verbose, FlagName::Verbose)
        + switch_tokens(v.no_default_features, FlagName::NoDefaultFeatures)
        + switch_tokens(v.all_features, FlagName::AllFeatures)
        + value_tokens(FlagName::Features, v.features)
        + sanitizer_tokens(v.sanitizer)
        + opt_bool_tokens(FlagName::BuildStd, v.build_std)
        + switch_tokens(v.careful_mode, FlagName::Careful)
        + triple_tokens(v.triple, host)
        + unstable_tokens(v.unstable_flags)
        + value_tokens(FlagName::TargetDir, v.target_dir)
        + switch_tokens(v.coverage, FlagName::Coverage)
        + codegen_tokens(v.codegen_units)
        + tristate_tokens(FlagName::StripDeadCode, v.strip_dead_code)
        + switch_tokens(v.no_cfg_fuzzing, FlagName::NoCfgFuzzing)
        + switch_tokens(v.no_trace_compares, FlagName::NoTraceCompares)
        + switch_tokens(v.trace_div, FlagName::TraceDiv)
        + switch_tokens(v.trace_gep, FlagName::TraceGep)
        + tristate_tokens(FlagName::DisableBranchFolding, v.disable_branch_folding)
        + switch_tokens(v.no_include_main_msvc, FlagName::NoIncludeMainMsvc)
}

/// The position of the first `=` in `t`, or its length if it holds none.
pub open spec fn eq_pos(t: Seq<char>) -> nat
    decreases t.len(),
{
    if t.len() == 0 {
        0
    } else if t[0] == '=' {
        0
    } else {
        1 + eq_pos(t.drop_first())
    }
}

/// The option name of a token: what comes before the first `=`.
pub open spec fn token_name(t: Seq<char>) -> Seq<char> {
    t.subrange(0, eq_pos(t) as int)
}

/// The value of a token: what comes after the first `=`, if there is one.
pub open spec fn token_value(t: Seq<char>) -> Option<Seq<char>> {
    if eq_pos(t) < t.len() {
        Some(t.subrange(eq_pos(t) as int + 1, t.len() as int))
    } else {
        None
    }
}

/// Sets a switch, which takes no value.
pub open spec fn set_switch(b: BuildOptionsView, f: FlagName, val: Option<Seq<char>>) -> Option<
    BuildOptionsView,
> {
    if val is Some {
        None
    } else {
        match f {
            FlagName::Dev => Some(BuildOptionsView { dev: true, ..b }),
            FlagName::Release => Some(BuildOptionsView { release: true, ..b }),
            FlagName::DebugAssertions => Some(BuildOptionsView { debug_assertions: true, ..b }),
            FlagName::Verbose => Some(BuildOptionsView { verbose: true, ..b }),
            FlagName::NoDefaultFeatures => Some(BuildOptionsView { no_default_features: true, ..b }),
            FlagName::AllFeatures => Some(BuildOptionsView { all_features: true, ..b }),
            FlagName::Careful => Some(BuildOptionsView { careful_mode: true, ..b }),
            FlagName::Coverage => Some(BuildOptionsView { coverage: true, ..b }),
            FlagName::NoCfgFuzzing => Some(BuildOptionsView { no_cfg_fuzzing: true, ..b }),
            FlagName::NoTraceCompares => Some(BuildOptionsView { no_trace_compares: true, ..b }),
            FlagName::TraceDiv => Some(BuildOptionsView { trace_div: true, ..b }),
            FlagName::TraceGep => Some(BuildOptionsView { trace_gep: true, ..b }),
            FlagName::NoIncludeMainMsvc => Some(BuildOptionsView { no_include_main_msvc: true, ..b }),
            _ => None,
        }
    }
}

/// What option `f`, given the value `val` (or none), makes of `b`; `None` where
/// the option needs a value it lacks, or the value is not one it takes.
#[verifier::opaque]
pub open spec fn apply_flag(b: BuildOptionsView, f: FlagName, val: Option<Seq<char>>) -> Option<
    BuildOptionsView,
> {
    match f {
        FlagName::Features => match val {
            Some(x) => Some(BuildOptionsView { features: Some(x), ..b }),
            None => None,
        },
        FlagName::Sanitizer => match val {
            Some(x) => match lookup_sanitizer(x) {
                Some(s) => Some(BuildOptionsView { sanitizer: s, ..b }),
                None => None,
            },
            None => None,
        },
        FlagName::Target => match val {
            Some(x) => Some(BuildOptionsView { triple: x, ..b }),
            None => None,
        },
        FlagName::TargetDir => match val {
            Some(x) => Some(BuildOptionsView { target_dir: Some(x), ..b }),
            None => None,
        },
        FlagName::CodegenUnits => match val {
            Some(x) => if is_decimal(x) && decimal_value(x) <= usize::MAX {
                Some(BuildOptionsView { codegen_units: Some(decimal_value(x) as usize), ..b })
            } else {
                None
            },
            None => None,
        },
        FlagName::BuildStd => match val {
            None => Some(BuildOptionsView { build_std: Some(true), ..b }),
            Some(x) => match bool_of(x) {
                Some(v) => Some(BuildOptionsView { build_std: Some(v), ..b }),
                None => None,
            },
        },
        FlagName::StripDeadCode => match val {
            None => Some(BuildOptionsView { strip_dead_code: Some(None), ..b }),
            Some(x) => match bool_of(x) {
                Some(v) => Some(BuildOptionsView { strip_dead_code: Some(Some(v)), ..b }),
                None => None,
            },
        },
        FlagName::DisableBranchFolding => match val {
            None => Some(BuildOptionsView { disable_branch_folding: Some(None), ..b }),
            Some(x) => match bool_of(x) {
                Some(v) => Some(BuildOptionsView { disable_branch_folding: Some(Some(v)), ..b }),
                None => None,
            },
        },
        _ => set_switch(b, f, val),
    }
}

/// What one token makes of `b`: `-Z<flag>` adds an unstable flag; any other
/// token is `name` or `name=value`.
#[verifier::opaque]
pub open spec fn apply_token(b: BuildOptionsView, t: Seq<char>) -> Option<BuildOptionsView> {
    if has_prefix(t, "-Z"@) {
        Some(
            BuildOptionsView {
                unstable_flags: b.unstable_flags.push(t.subrange(2, t.len() as int)),
                ..b
            },
        )
    } else {
        match lookup_name(token_name(t)) {
            Some(f) => apply_flag(b, f, token_value(t)),
            None => None,
        }
    }
}

/// The tokens applied to `b` from first to last.
#[verifier::opaque]
pub open spec fn apply_tokens(b: BuildOptionsView, ts: Seq<Seq<char>>) -> Option<BuildOptionsView>
    decreases ts.len(),
{
    if ts.len() == 0 {
        Some(b)
    } else {
        match apply_token(b, ts[0]) {
            Some(c) => apply_tokens(c, ts.drop_first()),
            None => None,
        }
    }
}

/// The build options that the tokens `ts` give, starting from the defaults for
/// the host triple `host`; `None` where a token is not understood or the
/// options given exclude each other.
pub open spec fn parse_tokens(ts: Seq<Seq<char>>, host: Seq<char>) -> Option<BuildOptionsView> {
    match apply_tokens(default_options(host), ts) {
        Some(b) => if options_consistent(b) {
            Some(b)
        } else {
            None
        },
        None => None,
    }
}

proof fn lemma_eq_pos_concat(a: Seq<char>, b: Seq<char>)
    requires
        forall|i: int| 0 <= i < a.len() ==> a[i] != '=',
    ensures
        eq_pos(a + b) == a.len() + eq_pos(b),
    decreases a.len(),
{
    if a.len() > 0 {
        assert((a + b).drop_first() =~= a.drop_first() + b);
        lemma_eq_pos_concat(a.drop_first(), b);
    } else {
        assert(a + b =~= b);
    }
}

proof fn lemma_bare_token(f: FlagName)
    ensures
        !has_prefix(name_text(f), "-Z"@),
        token_name(name_text(f)) == name_text(f),
        token_value(name_text(f)) is None,
        lookup_name(name_text(f)) == Some(f),
{
    lemma_name_text(f);
    reveal_strlit("-Z");
    let t = name_text(f);
    lemma_eq_pos_concat(t, Seq::empty());
    assert(t + Seq::<char>::empty() =~= t);
    assert(t.subrange(0, t.len() as int) =~= t);
    assert(t.subrange(0, 2)[1] != "-Z"@[1]);
}

proof fn lemma_valued_token(f: FlagName, x: Seq<char>)
    ensures
        !has_prefix(valued(f, x), "-Z"@),
        token_name(valued(f, x)) == name_text(f),
        token_value(valued(f, x)) == Some(x),
        lookup_name(name_text(f)) == Some(f),
{
    lemma_name_text(f);
    reveal_strlit("-Z");
    reveal_strlit("=");
    let n = name_text(f);
    let t = valued(f, x);
    assert(t =~= n + ("="@ + x));
    lemma_eq_pos_concat(n, "="@ + x);
    assert(eq_pos("="@ + x) == 0);
    assert(t.subrange(0, n.len() as int) =~= n);
    assert(t.subrange(n.len() as int + 1, t.len() as int) =~= x);
    assert(t.subrange(0, 2)[1] != "-Z"@[1]);
}

proof fn lemma_bool_text(b: bool)
    ensures
        bool_of(bool_text(b)) == Some(b),
{
    reveal_strlit("true");
    reveal_strlit("false");
    assert("true"@.len() != "false"@.len());
}

proof fn lemma_apply_concat(b: BuildOptionsView, s: Seq<Seq<char>>, t: Seq<Seq<char>>)
    ensures
        apply_tokens(b, s + t) == match apply_tokens(b, s) {
            Some(c) => apply_tokens(c, t),
            None => None,
        },
    decreases s.len(),
{
    reveal(apply_tokens);
    if s.len() == 0 {
        assert(s + t =~= t);
    } else {
        assert((s + t).drop_first() =~= s.drop_first() + t);
        assert((s + t)[0] == s[0]);
        match apply_token(b, s[0]) {
            Some(c) => lemma_apply_concat(c, s.drop_first(), t),
            None => {},
        }
    }
}

proof fn lemma_apply_one(b: BuildOptionsView, t: Seq<char>)
    ensures
        apply_tokens(b, seq![t]) == apply_token(b, t),
{
    reveal(apply_tokens);
    assert(seq![t].drop_first() =~= Seq::<Seq<char>>::empty());
    if let Some(c) = apply_token(b, t) {
        assert(apply_tokens(c, Seq::empty()) == Some(c));
    }
}

proof fn lemma_unstable_token(b: BuildOptionsView, x: Seq<char>)
    ensures
        apply_token(b, "-Z"@ + x) == Some(
            BuildOptionsView { unstable_flags: b.unstable_flags.push(x), ..b },
        ),
{
    reveal(apply_token);
    reveal_strlit("-Z");
    let t = "-Z"@ + x;
    assert(t.subrange(0, 2) =~= "-Z"@);
    assert(t.subrange(2, t.len() as int) =~= x);
}

#[verifier::rlimit(60)]
proof fn lemma_apply_unstable(b: BuildOptionsView, fs: Seq<Seq<char>>)
    ensures
        apply_tokens(b, unstable_tokens(fs)) == Some(
            BuildOptionsView { unstable_flags: b.unstable_flags + fs, ..b },
        ),
    decreases fs.len(),
{
    reveal(apply_tokens);
    let ts = unstable_tokens(fs);
    if fs.len() == 0 {
        assert(b.unstable_flags + fs =~= b.unstable_flags);
        assert(ts.len() == 0);
    } else {
        let x = fs[0];
        let rest = fs.drop_first();
        assert(ts[0] == "-Z"@ + x);
        lemma_unstable_token(b, x);
        let c = BuildOptionsView { unstable_flags: b.unstable_flags.push(x), ..b };
        assert(ts.drop_first() =~= unstable_tokens(rest));
        assert(apply_tokens(b, ts) == apply_tokens(c, ts.drop_first()));
        lemma_apply_unstable(c, rest);
        assert(c.unstable_flags + rest =~= b.unstable_flags + fs);
    }
}

proof fn lemma_seg_switch(b: BuildOptionsView, on: bool, f: FlagName)
    ensures
        apply_tokens(b, switch_tokens(on, f)) == if on {
            apply_flag(b, f, None)
        } else {
            Some(b)
        },
{
    reveal(apply_tokens);
    reveal(apply_token);
    lemma_bare_token(f);
    lemma_apply_one(b, name_text(f));
}

proof fn lemma_seg_value(b: BuildOptionsView, f: FlagName, o: Option<Seq<char>>)
    ensures
        apply_tokens(b, value_tokens(f, o)) == match o {
            Some(x) => apply_flag(b, f, Some(x)),
            None => Some(b),
        },
{
    reveal(apply_tokens);
    reveal(apply_token);
    if let Some(x) = o {
        lemma_valued_token(f, x);
        lemma_apply_one(b, valued(f, x));
    }
}

proof fn lemma_seg_sanitizer(b: BuildOptionsView, s: Sanitizer)
    ensures
        apply_tokens(b, sanitizer_tokens(s)) == if s == Sanitizer::Address {
            Some(b)
        } else {
            Some(BuildOptionsView { sanitizer: s, ..b })
        },
{
    reveal(apply_tokens);
    reveal(apply_flag);
    if s != Sanitizer::Address {
        lemma_seg_value(b, FlagName::Sanitizer, Some(sanitizer_name(s)));
        lemma_sanitizer_name(s);
    }
}

proof fn lemma_seg_triple(b: BuildOptionsView, triple: Seq<char>, host: Seq<char>)
    ensures
        apply_tokens(b, triple_tokens(triple, host)) == if triple == host {
            Some(b)
        } else {
            Some(BuildOptionsView { triple: triple, ..b })
        },
{
    reveal(apply_tokens);
    reveal(apply_flag);
    if triple != host {
        lemma_seg_value(b, FlagName::Target, Some(triple));
    }
}

proof fn lemma_seg_codegen(b: BuildOptionsView, o: Option<usize>)
    ensures
        apply_tokens(b, codegen_tokens(o)) == match o {
            Some(n) => Some(BuildOptionsView { codegen_units: Some(n), ..b }),
            None => Some(b),
        },
{
    reveal(apply_tokens);
    reveal(apply_flag);
    if let Some(n) = o {
        lemma_decimal_round_trip(n as nat);
        lemma_seg_value(b, FlagName::CodegenUnits, Some(decimal_text(n as nat)));
    }
}

proof fn lemma_seg_opt_bool(b: BuildOptionsView, f: FlagName, o: Option<bool>)
    ensures
        apply_tokens(b, opt_bool_tokens(f, o)) == match o {
            None => Some(b),
            Some(x) => apply_flag(b, f, Some(bool_text(x))),
        },
        o matches Some(x) ==> bool_of(bool_text(x)) == Some(x),
{
    reveal(apply_tokens);
    if let Some(x) = o {
        lemma_bool_text(x);
        lemma_seg_value(b, f, Some(bool_text(x)));
    }
}

proof fn lemma_seg_tristate(b: BuildOptionsView, f: FlagName, o: Option<Option<bool>>)
    ensures
        apply_tokens(b, tristate_tokens(f, o)) == match o {
            None => Some(b),
            Some(None) => apply_flag(b, f, None),
            Some(Some(x)) => apply_flag(b, f, Some(bool_text(x))),
        },
        o matches Some(Some(x)) ==> bool_of(bool_text(x)) == Some(x),
{
    reveal(apply_tokens);
    match o {
        None => {},
        Some(None) => lemma_seg_switch(b, true, f),
        Some(Some(x)) => {
            lemma_bool_text(x);
            lemma_seg_value(b, f, Some(bool_text(x)));
        },
    }
}

/// The tokens of the `k`-th option of `flag_tokens` (counting from one).
pub open spec fn segment_tokens(v: BuildOptionsView, host: Seq<char>, k: int) -> Seq<Seq<char>> {
    if k == 1 {
        switch_tokens(v.dev, FlagName::Dev)
    } else if k == 2 {
        switch_tokens(v.release, FlagName::Release)
    } else if k == 3 {
        switch_tokens(v.debug_assertions, FlagName::DebugAssertions)
    } else if k == 4 {
        switch_tokens(v.verbose, FlagName::Verbose)
    } else if k == 5 {
        switch_tokens(v.no_default_features, FlagName::NoDefaultFeatures)
    } else if k == 6 {
        switch_tokens(v.all_features, FlagName::AllFeatures)
    } else if k == 7 {
        value_tokens(FlagName::Features, v.features)
    } else if k == 8 {
        sanitizer_tokens(v.sanitizer)
    } else if k == 9 {
        opt_bool_tokens(FlagName::BuildStd, v.build_std)
    } else if k == 10 {
        switch_tokens(v.careful_mode, FlagName::Careful)
    } else if k == 11 {
        triple_tokens(v.triple, host)
    } else if k == 12 {
        unstable_tokens(v.unstable_flags)
    } else if k == 13 {
        value_tokens(FlagName::TargetDir, v.target_dir)
    } else if k == 14 {
        switch_tokens(v.coverage, FlagName::Coverage)
    } else if k == 15 {
        codegen_tokens(v.codegen_units)
    } else if k == 16 {
        tristate_tokens(FlagName::StripDeadCode, v.strip_dead_code)
    } else if k == 17 {
        switch_tokens(v.no_cfg_fuzzing, FlagName::NoCfgFuzzing)
    } else if k == 18 {
        switch_tokens(v.no_trace_compares, FlagName::NoTraceCompares)
    } else if k == 19 {
        switch_tokens(v.trace_div, FlagName::TraceDiv)
    } else if k == 20 {
        switch_tokens(v.trace_gep, FlagName::TraceGep)
    } else if k == 21 {
        tristate_tokens(FlagName::DisableBranchFolding, v.disable_branch_folding)
    } else if k == 22 {
        switch_tokens(v.no_include_main_msvc, FlagName::NoIncludeMainMsvc)
    } else {
        Seq::empty()
    }
}

/// The tokens of the first `k` options of `flag_tokens`.
pub open spec fn prefix_tokens(v: BuildOptionsView, host: Seq<char>, k: nat) -> Seq<Seq<char>>
    decreases k,
{
    if k == 0 {
        Seq::empty()
    } else {
        prefix_tokens(v, host, (k - 1) as nat) + segment_tokens(v, host, k as int)
    }
}

/// The first `k` options taken from `v`, the others at their defaults.
pub open spec fn partial_options(v: BuildOptionsView, host: Seq<char>, k: int) -> BuildOptionsView {
    BuildOptionsView {
        dev: if k >= 1 { v.dev } else { false },
        release: if k >= 2 { v.release } else { false },
        debug_assertions: if k >= 3 { v.debug_assertions } else { false },
        verbose: if k >= 4 { v.verbose } else { false },
        no_default_features: if k >= 5 { v.no_default_features } else { false },
        all_features: if k >= 6 { v.all_features } else { false },
        features: if k >= 7 { v.features } else { None },
        sanitizer: if k >= 8 { v.sanitizer } else { Sanitizer::Address },
        build_std: if k >= 9 { v.build_std } else { None },
        careful_mode: if k >= 10 { v.careful_mode } else { false },
        triple: if k >= 11 { v.triple } else { host },
        unstable_flags: if k >= 12 { v.unstable_flags } else { Seq::empty() },
        target_dir: if k >= 13 { v.target_dir } else { None },
        coverage: if k >= 14 { v.coverage } else { false },
        codegen_units: if k >= 15 { v.codegen_units } else { None },
        strip_dead_code: if k >= 16 { v.strip_dead_code } else { None },
        no_cfg_fuzzing: if k >= 17 { v.no_cfg_fuzzing } else { false },
        no_trace_compares: if k >= 18 { v.no_trace_compares } else { false },
        trace_div: if k >= 19 { v.trace_div } else { false },
        trace_gep: if k >= 20 { v.trace_gep } else { false },
        disable_branch_folding: if k >= 21 { v.disable_branch_folding } else { None },
        no_include_main_msvc: if k >= 22 { v.no_include_main_msvc } else { false },
    }
}

proof fn lemma_segment_a(v: BuildOptionsView, host: Seq<char>, k: int)
    requires
        1 <= k <= 6,
    ensures
        apply_tokens(partial_options(v, host, k - 1), segment_tokens(v, host, k)) == Some(
            partial_options(v, host, k),
        ),
{
    reveal(apply_flag);
    let b = partial_options(v, host, k - 1);
    if k == 1 {
        lemma_seg_switch(b, v.dev, FlagName::Dev);
        assert(partial_options(v, host, k) == BuildOptionsView { dev: v.dev, ..b });
    } else if k == 2 {
        lemma_seg_switch(b, v.release, FlagName::Release);
        assert(partial_options(v, host, k) == BuildOptionsView { release: v.release, ..b });
    } else if k == 3 {
        lemma_seg_switch(b, v.debug_assertions, FlagName::DebugAssertions);
        assert(partial_options(v, host, k) == BuildOptionsView { debug_assertions: v.debug_assertions, ..b });
    } else if k == 4 {
        lemma_seg_switch(b, v.verbose, FlagName::Verbose);
        assert(partial_options(v, host, k) == BuildOptionsView { verbose: v.verbose, ..b });
    } else if k == 5 {
        lemma_seg_switch(b, v.no_default_features, FlagName::NoDefaultFeatures);
        assert(partial_options(v, host, k) == BuildOptionsView { no_default_features: v.no_default_features, ..b });
    } else if k == 6 {
        lemma_seg_switch(b, v.all_features, FlagName::AllFeatures);
        assert(partial_options(v, host, k) == BuildOptionsView { all_features: v.all_features, ..b });
    }
}

proof fn lemma_segment_b(v: BuildOptionsView, host: Seq<char>, k: int)
    requires
        7 <= k <= 12,
    ensures
        apply_tokens(partial_options(v, host, k - 1), segment_tokens(v, host, k)) == Some(
            partial_options(v, host, k),
        ),
{
    reveal(apply_flag);
    let b = partial_options(v, host, k - 1);
    if k == 7 {
        lemma_seg_value(b, FlagName::Features, v.features);
        assert(partial_options(v, host, k) == BuildOptionsView { features: v.features, ..b });
    } else if k == 8 {
        lemma_seg_sanitizer(b, v.sanitizer);
        assert(partial_options(v, host, k) == BuildOptionsView { sanitizer: v.sanitizer, ..b });
    } else if k == 9 {
        lemma_seg_opt_bool(b, FlagName::BuildStd, v.build_std);
        assert(partial_options(v, host, k) == BuildOptionsView { build_std: v.build_std, ..b });
    } else if k == 10 {
        lemma_seg_switch(b, v.careful_mode, FlagName::Careful);
        assert(partial_options(v, host, k) == BuildOptionsView { careful_mode: v.careful_mode, ..b });
    } else if k == 11 {
        lemma_seg_triple(b, v.triple, host);
        assert(partial_options(v, host, k) == BuildOptionsView { triple: v.triple, ..b });
    } else if k == 12 {
        lemma_apply_unstable(b, v.unstable_flags);
        assert(b.unstable_flags + v.unstable_flags =~= v.unstable_flags);
        assert(partial_options(v, host, k) == BuildOptionsView { unstable_flags: v.unstable_flags, ..b });
    }
}

proof fn lemma_segment_c(v: BuildOptionsView, host: Seq<char>, k: int)
    requires
        13 <= k <= 17,
    ensures
        apply_tokens(partial_options(v, host, k - 1), segment_tokens(v, host, k)) == Some(
            partial_options(v, host, k),
        ),
{
    reveal(apply_flag);
    let b = partial_options(v, host, k - 1);
    if k == 13 {
        lemma_seg_value(b, FlagName::TargetDir, v.target_dir);
        assert(partial_options(v, host, k) == BuildOptionsView { target_dir: v.target_dir, ..b });
    } else if k == 14 {
        lemma_seg_switch(b, v.coverage, FlagName::Coverage);
        assert(partial_options(v, host, k) == BuildOptionsView { coverage: v.coverage, ..b });
    } else if k == 15 {
        lemma_seg_codegen(b, v.codegen_units);
        assert(partial_options(v, host, k) == BuildOptionsView { codegen_units: v.codegen_units, ..b });
    } else if k == 16 {
        lemma_seg_tristate(b, FlagName::StripDeadCode, v.strip_dead_code);
        assert(partial_options(v, host, k) == BuildOptionsView { strip_dead_code: v.strip_dead_code, ..b });
    } else if k == 17 {
        lemma_seg_switch(b, v.no_cfg_fuzzing, FlagName::NoCfgFuzzing);
        assert(partial_options(v, host, k) == BuildOptionsView { no_cfg_fuzzing: v.no_cfg_fuzzing, ..b });
    }
}

proof fn lemma_segment_d(v: BuildOptionsView, host: Seq<char>, k: int)
    requires
        18 <= k <= 20,
    ensures
        apply_tokens(partial_options(v, host, k - 1), segment_tokens(v, host, k)) == Some(
            partial_options(v, host, k),
        ),
{
    reveal(apply_flag);
    let b = partial_options(v, host, k - 1);
    if k == 18 {
        lemma_seg_switch(b, v.no_trace_compares, FlagName::NoTraceCompares);
        assert(partial_options(v, host, k) == BuildOptionsView { no_trace_compares: v.no_trace_compares, ..b });
    } else if k == 19 {
        lemma_seg_switch(b, v.trace_div, FlagName::TraceDiv);
        assert(partial_options(v, host, k) == BuildOptionsView { trace_div: v.trace_div, ..b });
    } else if k == 20 {
        lemma_seg_switch(b, v.trace_gep, FlagName::TraceGep);
        assert(partial_options(v, host, k) == BuildOptionsView { trace_gep: v.trace_gep, ..b });
    }
}

#[verifier::rlimit(80)]
proof fn lemma_segment_e(v: BuildOptionsView, host: Seq<char>, k: int)
    requires
        21 <= k <= 22,
    ensures
        apply_tokens(partial_options(v, host, k - 1), segment_tokens(v, host, k)) == Some(
            partial_options(v, host, k),
        ),
{
    reveal(apply_flag);
    let b = partial_options(v, host, k - 1);
    if k == 21 {
        lemma_seg_tristate(b, FlagName::DisableBranchFolding, v.disable_branch_folding);
        assert(partial_options(v, host, k) == BuildOptionsView { disable_branch_folding: v.disable_branch_folding, ..b });
    } else if k == 22 {
        lemma_seg_switch(b, v.no_include_main_msvc, FlagName::NoIncludeMainMsvc);
        assert(partial_options(v, host, k) == BuildOptionsView { no_include_main_msvc: v.no_include_main_msvc, ..b });
    }
}

proof fn lemma_segment(v: BuildOptionsView, host: Seq<char>, k: int)
    requires
        1 <= k <= 22,
    ensures
        apply_tokens(partial_options(v, host, k - 1), segment_tokens(v, host, k)) == Some(
            partial_options(v, host, k),
        ),
{
    if k <= 6 {
        lemma_segment_a(v, host, k);
    } else if k <= 12 {
        lemma_segment_b(v, host, k);
    } else if k <= 17 {
        lemma_segment_c(v, host, k);
    } else if k <= 20 {
        lemma_segment_d(v, host, k);
    } else {
        lemma_segment_e(v, host, k);
    }
}

proof fn lemma_prefix(v: BuildOptionsView, host: Seq<char>, k: nat)
    requires
        k <= 22,
    ensures
        apply_tokens(default_options(host), prefix_tokens(v, host, k)) == Some(
            partial_options(v, host, k as int),
        ),
    decreases k,
{
    if k == 0 {
        reveal(apply_tokens);
        assert(partial_options(v, host, 0) == default_options(host));
    } else {
        lemma_prefix(v, host, (k - 1) as nat);
        lemma_segment(v, host, k as int);
        lemma_apply_concat(
            default_options(host),
            prefix_tokens(v, host, (k - 1) as nat),
            segment_tokens(v, host, k as int),
        );
    }
}

/// Reading back the command-line tokens of any consistent set of build options
/// gives the same options.
pub proof fn lemma_flag_round_trip(b: BuildOptions, host: Seq<char>)
    requires
        options_consistent(b@),
    ensures
        parse_tokens(flag_tokens(b@, host), host) == Some(b@),
{
    let v = b@;
    lemma_prefix(v, host, 22);
    reveal_with_fuel(prefix_tokens, 23);
    assert(Seq::<Seq<char>>::empty() + segment_tokens(v, host, 1) =~= segment_tokens(v, host, 1));
    assert(prefix_tokens(v, host, 22) == flag_tokens(v, host));
    assert(partial_options(v, host, 22) == v);
}

proof fn lemma_flag_keeps_coverage(b: BuildOptionsView, f: FlagName, val: Option<Seq<char>>)
    ensures
        apply_flag(b, f, val) matches Some(c) ==> (b.coverage ==> c.coverage),
        f == FlagName::Coverage && val is None ==> (apply_flag(b, f, val) matches Some(c) && c.coverage),
{
    reveal(apply_flag);
    match f {
        FlagName::Dev => {},
        FlagName::Release => {},
        FlagName::DebugAssertions => {},
        FlagName::Verbose => {},
        FlagName::NoDefaultFeatures => {},
        FlagName::AllFeatures => {},
        FlagName::Features => {},
        FlagName::Sanitizer => {},
        FlagName::BuildStd => {},
        FlagName::Careful => {},
        FlagName::Target => {},
        FlagName::TargetDir => {},
        FlagName::Coverage => {},
        FlagName::CodegenUnits => {},
        FlagName::StripDeadCode => {},
        FlagName::NoCfgFuzzing => {},
        FlagName::NoTraceCompares => {},
        FlagName::TraceDiv => {},
        FlagName::TraceGep => {},
        FlagName::DisableBranchFolding => {},
        FlagName::NoIncludeMainMsvc => {},
    }
}

proof fn lemma_coverage_token_step(b: BuildOptionsView, t: Seq<char>)
    ensures
        apply_token(b, t) matches Some(c) ==> ((b.coverage || t == "--coverage"@) ==> c.coverage),
{
    reveal(apply_token);
    if t == "--coverage"@ {
        lemma_bare_token(FlagName::Coverage);
        lemma_flag_keeps_coverage(b, FlagName::Coverage, None);
    } else if !has_prefix(t, "-Z"@) {
        if let Some(f) = lookup_name(token_name(t)) {
            lemma_flag_keeps_coverage(b, f, token_value(t));
        }
    }
}

proof fn lemma_coverage_sticks(b: BuildOptionsView, ts: Seq<Seq<char>>)
    ensures
        apply_tokens(b, ts) matches Some(c) ==> ((b.coverage || ts.contains("--coverage"@))
            ==> c.coverage),
    decreases ts.len(),
{
    reveal(apply_tokens);
    if ts.len() > 0 {
        lemma_coverage_token_step(b, ts[0]);
        if let Some(c1) = apply_token(b, ts[0]) {
            let rest = ts.drop_first();
            lemma_coverage_sticks(c1, rest);
            if ts.contains("--coverage"@) && ts[0] != "--coverage"@ {
                let k = choose|k: int| 0 <= k < ts.len() && ts[k] == "--coverage"@;
                assert(rest[k - 1] == "--coverage"@);
            }
        }
    }
}

/// The coverage option is never rendered when it is off: no token of the flag
/// form of such options is `--coverage`.
pub proof fn lemma_coverage_absent_when_off(b: BuildOptions, host: Seq<char>)
    requires
        !b.coverage,
    ensures
        !flag_tokens(b@, host).contains("--coverage"@),
{
    let v = b@;
    lemma_prefix(v, host, 22);
    reveal_with_fuel(prefix_tokens, 23);
    assert(Seq::<Seq<char>>::empty() + segment_tokens(v, host, 1) =~= segment_tokens(v, host, 1));
    assert(prefix_tokens(v, host, 22) == flag_tokens(v, host));
    assert(partial_options(v, host, 22) == v);
    lemma_coverage_sticks(default_options(host), flag_tokens(v, host));
}

/// The optional characters of an optional string slice.
pub open spec fn opt_str(o: Option<&str>) -> Option<Seq<char>> {
    match o {
        Some(s) => Some(s@),
        None => None,
    }
}

fn push_text(r: &mut Vec<String>, t: String)
    ensures
        texts(final(r)@) == texts(old(r)@) + seq![t@],
{
    let ghost before = r@;
    r.push(t);
    assert(texts(r@) =~= texts(before) + seq![t@]);
}

/// `name=value` for option `f`.
fn valued_string(f: FlagName, x: &str) -> (r: String)
    ensures
        r@ == valued(f, x@),
{
    let s = String::from_str(f.text());
    let s = s.concat("=");
    s.concat(x)
}

fn bool_string(b: bool) -> (r: &'static str)
    ensures
        r@ == bool_text(b),
{
    if b {
        "true"
    } else {
        "false"
    }
}

fn push_tristate(r: &mut Vec<String>, f: FlagName, o: Option<Option<bool>>)
    ensures
        texts(final(r)@) == texts(old(r)@) + tristate_tokens(f, o),
{
    match o {
        None => {
            assert(texts(r@) =~= texts(r@) + tristate_tokens(f, o));
        },
        Some(None) => push_text(r, String::from_str(f.text())),
        Some(Some(b)) => push_text(r, valued_string(f, bool_string(b))),
    }
}

fn push_opt_bool(r: &mut Vec<String>, f: FlagName, o: Option<bool>)
    ensures
        texts(final(r)@) == texts(old(r)@) + opt_bool_tokens(f, o),
{
    match o {
        None => {
            assert(texts(r@) =~= texts(r@) + opt_bool_tokens(f, o));
        },
        Some(b) => push_text(r, valued_string(f, bool_string(b))),
    }
}

fn push_switch(r: &mut Vec<String>, on: bool, f: FlagName)
    ensures
        texts(final(r)@) == texts(old(r)@) + switch_tokens(on, f),
{
    if on {
        push_text(r, String::from_str(f.text()));
    } else {
        assert(texts(r@) =~= texts(r@) + switch_tokens(on, f));
    }
}

fn push_value(r: &mut Vec<String>, f: FlagName, o: &Option<String>)
    ensures
        texts(final(r)@) == texts(old(r)@) + value_tokens(f, opt_text(*o)),
{
    match o {
        Some(x) => push_text(r, valued_string(f, x.as_str())),
        None => {
            assert(texts(r@) =~= texts(r@) + value_tokens(f, opt_text(*o)));
        },
    }
}

fn push_unstable(r: &mut Vec<String>, fs: &Vec<String>)
    ensures
        texts(final(r)@) == texts(old(r)@) + unstable_tokens(texts(fs@)),
{
    let ghost start = texts(r@);
    let mut i: usize = 0;
    proof {
        reveal_strlit("-Z");
    }
    while i < fs.len()
        invariant
            i <= fs@.len(),
            texts(r@) == start + unstable_tokens(texts(fs@.subrange(0, i as int))),
        decreases fs@.len() - i,
    {
        let t = String::from_str("-Z").concat(fs[i].as_str());
        push_text(r, t);
        i += 1;
        assert(unstable_tokens(texts(fs@.subrange(0, i as int))) =~= unstable_tokens(
            texts(fs@.subrange(0, i - 1)),
        ) + seq![t@]);
    }
    assert(fs@.subrange(0, i as int) =~= fs@);
}

impl BuildOptions {
    fn push_group_1(&self, r: &mut Vec<String>, host: &str)
        ensures
            texts(final(r)@) == texts(old(r)@) + switch_tokens(self@.dev, FlagName::Dev) + switch_tokens(self@.release, FlagName::Release) + switch_tokens(self@.debug_assertions, FlagName::DebugAssertions) + switch_tokens(self@.verbose, FlagName::Verbose) + switch_tokens(self@.no_default_features, FlagName::NoDefaultFeatures) + switch_tokens(self@.all_features, FlagName::AllFeatures),
    {
        push_switch(r, self.dev, FlagName::Dev);
        push_switch(r, self.release, FlagName::Release);
        push_switch(r, self.debug_assertions, FlagName::DebugAssertions);
        push_switch(r, self.verbose, FlagName::Verbose);
        push_switch(r, self.no_default_features, FlagName::NoDefaultFeatures);
        push_switch(r, self.all_features, FlagName::AllFeatures);
    }

    fn push_group_2(&self, r: &mut Vec<String>, host: &str)
        ensures
            texts(final(r)@) == texts(old(r)@) + value_tokens(FlagName::Features, self@.features) + sanitizer_tokens(self@.sanitizer) + opt_bool_tokens(FlagName::BuildStd, self@.build_std) + switch_tokens(self@.careful_mode, FlagName::Careful) + triple_tokens(self@.triple, host@),
    {
        push_value(r, FlagName::Features, &self.features);
        match self.sanitizer {
            Sanitizer::Address => {
                assert(texts(r@) =~= texts(r@) + sanitizer_tokens(self.sanitizer));
            },
            _ => push_text(r, valued_string(FlagName::Sanitizer, self.sanitizer.name())),
        }
        push_opt_bool(r, FlagName::BuildStd, self.build_std);
        push_switch(r, self.careful_mode, FlagName::Careful);
        if str_eq(self.triple.as_str(), host) {
            assert(texts(r@) =~= texts(r@) + triple_tokens(self.triple@, host@));
        } else {
            push_text(r, valued_string(FlagName::Target, self.triple.as_str()));
        }
    }

    fn push_group_3(&self, r: &mut Vec<String>, host: &str)
        ensures
            texts(final(r)@) == texts(old(r)@) + unstable_tokens(self@.unstable_flags) + value_tokens(FlagName::TargetDir, self@.target_dir) + switch_tokens(self@.coverage, FlagName::Coverage) + codegen_tokens(self@.codegen_units) + tristate_tokens(FlagName::StripDeadCode, self@.strip_dead_code),
    {
        push_unstable(r, &self.unstable_flags);
        push_value(r, FlagName::TargetDir, &self.target_dir);
        push_switch(r, self.coverage, FlagName::Coverage);
        match self.codegen_units {
            Some(n) => {
                let d = to_decimal(n);
                push_text(r, valued_string(FlagName::CodegenUnits, d.as_str()));
            },
            None => {
                assert(texts(r@) =~= texts(r@) + codegen_tokens(self.codegen_units));
            },
        }
        push_tristate(r, FlagName::StripDeadCode, self.strip_dead_code);
    }

    fn push_group_4(&self, r: &mut Vec<String>, host: &str)
        ensures
            texts(final(r)@) == texts(old(r)@) + switch_tokens(self@.no_cfg_fuzzing, FlagName::NoCfgFuzzing) + switch_tokens(self@.no_trace_compares, FlagName::NoTraceCompares) + switch_tokens(self@.trace_div, FlagName::TraceDiv) + switch_tokens(self@.trace_gep, FlagName::TraceGep) + tristate_tokens(FlagName::DisableBranchFolding, self@.disable_branch_folding) + switch_tokens(self@.no_include_main_msvc, FlagName::NoIncludeMainMsvc),
    {
        push_switch(r, self.no_cfg_fuzzing, FlagName::NoCfgFuzzing);
        push_switch(r, self.no_trace_compares, FlagName::NoTraceCompares);
        push_switch(r, self.trace_div, FlagName::TraceDiv);
        push_switch(r, self.trace_gep, FlagName::TraceGep);
        push_tristate(r, FlagName::DisableBranchFolding, self.disable_branch_folding);
        push_switch(r, self.no_include_main_msvc, FlagName::NoIncludeMainMsvc);
    }

    /// The command-line tokens of these options for the host triple `host`;
    /// an option at its default value is left out.
    pub fn to_flags(&self, host: &str) -> (r: Vec<String>)
        ensures
            texts(r@) == flag_tokens(self@, host@),
    {
        let mut r: Vec<String> = Vec::new();
        assert(texts(r@) =~= Seq::<Seq<char>>::empty());
        self.push_group_1(&mut r, host);
        self.push_group_2(&mut r, host);
        self.push_group_3(&mut r, host);
        self.push_group_4(&mut r, host);
        assert(Seq::<Seq<char>>::empty() + switch_tokens(self@.dev, FlagName::Dev) =~= switch_tokens(
            self@.dev,
            FlagName::Dev,
        ));
        r
    }
}

} // verus!
