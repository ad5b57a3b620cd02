//! From build options to the builder's arguments and environment.

use vstd::prelude::*;
use vstd::string::*;
use crate::options::{opt_text, texts, tristate_value, BuildOptions, BuildOptionsView, Sanitizer};
use crate::text::{contains, has_infix};

verus! {

/// The values of the environment variables that the translation reads.
#[derive(Clone, Debug, PartialEq, Eq)]
pub struct Environment {
    /// Extra compiler flags the user set (`RUSTFLAGS`).
    pub rustflags: Option<String>,
    /// Address sanitizer options the user set (`ASAN_OPTIONS`).
    pub asan_options: Option<String>,
    /// Thread sanitizer options the user set (`TSAN_OPTIONS`).
    pub tsan_options: Option<String>,
}

/// A program's arguments and the environment variables set for it.
#[derive(Clone, Debug, PartialEq, Eq)]
pub struct Invocation {
    pub program: String,
    pub args: Vec<String>,
    pub env: Vec<(String, String)>,
}

/// The name and value of each environment variable.
pub open spec fn env_texts(e: Seq<(String, String)>) -> Seq<(Seq<char>, Seq<char>)> {
    e.map_values(|p: (String, String)| (p.0@, p.1@))
}

pub open spec fn piece(on: bool, p: Seq<char>) -> Seq<char> {
    if on {
        p
    } else {
        Seq::empty()
    }
}

pub open spec fn tokens_if(on: bool, p: Seq<Seq<char>>) -> Seq<Seq<char>> {
    if on {
        p
    } else {
        Seq::empty()
    }
}

/// Whether the standard library rebuild is asked for: unless turned off.
pub open spec fn build_std_requested(o: Option<bool>) -> bool {
    match o {
        Some(b) => b,
        None => true,
    }
}

/// Whether the standard library is rebuilt: always for the memory sanitizer,
/// which needs a sanitized standard library, and otherwise when not turned off
/// and not building for coverage.
pub open spec fn rebuilds_std(v: BuildOptionsView) -> bool {
    v.sanitizer == Sanitizer::Memory || (build_std_requested(v.build_std) && !v.coverage)
}

pub open spec fn unstable_args(fs: Seq<Seq<char>>) -> Seq<Seq<char>>
    decreases fs.len(),
{
    if fs.len() == 0 {
        Seq::empty()
    } else {
        unstable_args(fs.drop_last()) + seq!["-Z"@, fs.last()]
    }
}

fn append_sanitizer(s: &mut String, san: Sanitizer)
    ensures
        final(s)@ == old(s)@ + sanitizer_flags(san),
{
    let ghost before = s@;
    match san {
        Sanitizer::Disabled => {},
        Sanitizer::Memory => s.append(" -Zsanitizer=memory -Zsanitizer-memory-track-origins"),
        _ => {
            s.append(" -Zsanitizer=");
            s.append(san.name());
        },
    }
    assert(s@ =~= before + sanitizer_flags(san));
}

fn append_user(s: &mut String, user: &Option<String>)
    ensures
        final(s)@ == old(s)@ + match opt_text(*user) {
            Some(u) => " "@ + u,
            None => Seq::<char>::empty(),
        },
{
    let ghost before = s@;
    match user {
        Some(u) => {
            s.append(" ");
            s.append(u.as_str());
        },
        None => {},
    }
    assert(s@ =~= before + match opt_text(*user) {
        Some(u) => " "@ + u,
        None => Seq::<char>::empty(),
    });
}

/// The builder's arguments for `subcommand` on the manifest `manifest`.
pub open spec fn builder_args(subcommand: Seq<char>, manifest: Seq<char>, v: BuildOptionsView) -> Seq<
    Seq<char>,
> {
    seq![subcommand, "--manifest-path"@, manifest, "--target"@, v.triple]
        + tokens_if(!v.dev, seq!["--release"@])
        + tokens_if(v.verbose, seq!["--verbose"@])
        + tokens_if(v.no_default_features, seq!["--no-default-features"@])
        + tokens_if(v.all_features, seq!["--all-features"@])
        + match v.features {
            Some(f) => seq!["--features"@, f],
            None => Seq::empty(),
        }
        + unstable_args(v.unstable_flags)
        + tokens_if(rebuilds_std(v), seq!["-Z"@, "build-std"@])
}

/// The compiler flag that turns on the sanitizer.
pub open spec fn sanitizer_flags(s: Sanitizer) -> Seq<char> {
    match s {
        Sanitizer::Disabled => Seq::empty(),
        Sanitizer::Memory => " -Zsanitizer=memory -Zsanitizer-memory-track-origins"@,
        _ => " -Zsanitizer="@ + crate::options::sanitizer_name(s),
    }
}

/// The compiler flags for the options `v`, followed by the user's own.
pub open spec fn compiler_flags(v: BuildOptionsView, user: Option<Seq<char>>) -> Seq<char> {
    "-Cpasses=sancov-module -Cllvm-args=-sanitizer-coverage-level=4 -Cllvm-args=-sanitizer-coverage-inline-8bit-counters -Cllvm-args=-sanitizer-coverage-pc-table"@
        + piece(!v.no_trace_compares, " -Cllvm-args=-sanitizer-coverage-trace-compares"@)
        + piece(v.trace_div, " -Cllvm-args=-sanitizer-coverage-trace-divs"@)
        + piece(v.trace_gep, " -Cllvm-args=-sanitizer-coverage-trace-geps"@)
        + piece(!v.no_cfg_fuzzing, " --cfg fuzzing"@)
        + piece(!tristate_value(v.strip_dead_code, false), " -Clink-dead-code"@)
        + piece(v.coverage, " -Cinstrument-coverage"@)
        + sanitizer_flags(v.sanitizer)
        + piece(has_infix(v.triple, "-linux-"@), " -Cllvm-args=-sanitizer-coverage-stack-depth"@)
        + piece(!v.release || v.debug_assertions, " -Cdebug-assertions"@)
        + piece(
            has_infix(v.triple, "-msvc"@) && !v.no_include_main_msvc,
            " -Clink-arg=/include:main"@,
        )
        + piece(!v.dev, " -C codegen-units=1"@)
        + match user {
            Some(u) => " "@ + u,
            None => Seq::empty(),
        }
}

/// The user's sanitizer options with `default` appended, colon-separated.
pub open spec fn merged_options(user: Option<Seq<char>>, default: Seq<char>) -> Seq<char> {
    match user {
        Some(u) => if u.len() == 0 {
            default
        } else {
            u + ":"@ + default
        },
        None => default,
    }
}

/// The sanitizer runtime options variable and its value, for the sanitizers
/// that have default options.
pub open spec fn sanitizer_env_spec(s: Sanitizer, asan: Option<Seq<char>>, tsan: Option<Seq<char>>) -> Option<
    (Seq<char>, Seq<char>),
> {
    match s {
        Sanitizer::Address => Some(
            ("ASAN_OPTIONS"@, merged_options(asan, "detect_odr_violation=0"@)),
        ),
        Sanitizer::Thread => Some(
            ("TSAN_OPTIONS"@, merged_options(tsan, "report_signal_unsafe=0"@)),
        ),
        _ => None,
    }
}

fn append_if(s: &mut String, on: bool, p: &str)
    ensures
        final(s)@ == old(s)@ + piece(on, p@),
{
    if on {
        s.append(p);
    } else {
        assert(s@ =~= s@ + piece(on, p@));
    }
}

fn push_str_arg(r: &mut Vec<String>, t: &str)
    ensures
        texts(final(r)@) == texts(old(r)@) + seq![t@],
{
    let ghost before = r@;
    r.push(String::from_str(t));
    assert(texts(r@) =~= texts(before) + seq![t@]);
}

fn push_args_if(r: &mut Vec<String>, on: bool, t: &str)
    ensures
        texts(final(r)@) == texts(old(r)@) + tokens_if(on, seq![t@]),
{
    if on {
        push_str_arg(r, t);
    } else {
        assert(texts(r@) =~= texts(r@) + tokens_if(on, seq![t@]));
    }
}

/// The builder's arguments for `subcommand` on the manifest `manifest`: the
/// target triple always, release mode unless development mode is asked for,
/// the feature selection, the unstable flags, and a rebuild of the standard
/// library where `rebuilds_std` holds.
pub fn builder_arguments(subcommand: &str, manifest: &str, build: &BuildOptions) -> (r: Vec<String>)
    ensures
        texts(r@) == builder_args(subcommand@, manifest@, build@),
{
    let ghost v = build@;
    let mut r: Vec<String> = Vec::new();
    push_str_arg(&mut r, subcommand);
    push_str_arg(&mut r, "--manifest-path");
    push_str_arg(&mut r, manifest);
    push_str_arg(&mut r, "--target");
    push_str_arg(&mut r, build.triple.as_str());
    assert(texts(r@) =~= seq![subcommand@, "--manifest-path"@, manifest@, "--target"@, v.triple]);
    push_args_if(&mut r, !build.dev, "--release");
    push_args_if(&mut r, build.verbose, "--verbose");
    push_args_if(&mut r, build.no_default_features, "--no-default-features");
    push_args_if(&mut r, build.all_features, "--all-features");
    let ghost before_features = texts(r@);
    match &build.features {
        Some(f) => {
            push_str_arg(&mut r, "--features");
            push_str_arg(&mut r, f.as_str());
        },
        None => {},
    }
    assert(texts(r@) =~= before_features + match v.features {
        Some(f) => seq!["--features"@, f],
        None => Seq::<Seq<char>>::empty(),
    });
    let ghost before_unstable = texts(r@);
    let mut i: usize = 0;
    while i < build.unstable_flags.len()
        invariant
            i <= build.unstable_flags@.len(),
            v == build@,
            texts(r@) == before_unstable + unstable_args(
                texts(build.unstable_flags@.subrange(0, i as int)),
            ),
        decreases build.unstable_flags@.len() - i,
    {
        push_str_arg(&mut r, "-Z");
        push_str_arg(&mut r, build.unstable_flags[i].as_str());
        let ghost fs = texts(build.unstable_flags@.subrange(0, i + 1));
        assert(fs.drop_last() =~= texts(build.unstable_flags@.subrange(0, i as int)));
        i += 1;
        assert(texts(r@) =~= before_unstable + unstable_args(fs));
    }
    assert(build.unstable_flags@.subrange(0, i as int) =~= build.unstable_flags@);
    let rebuild = match build.sanitizer {
        Sanitizer::Memory => true,
        _ => {
            let requested = match build.build_std {
                Some(b) => b,
                None => true,
            };
            requested && !build.coverage
        },
    };
    let ghost before_std = texts(r@);
    if rebuild {
        push_str_arg(&mut r, "-Z");
        push_str_arg(&mut r, "build-std");
    }
    assert(texts(r@) =~= before_std + tokens_if(rebuilds_std(v), seq!["-Z"@, "build-std"@]));
    r
}

/// The compiler flags for `build`, followed by the user's own `user` flags so
/// that they win.
pub fn compiler_flags_for(build: &BuildOptions, user: &Option<String>) -> (r: String)
    ensures
        r@ == compiler_flags(build@, opt_text(*user)),
{
    let mut s = String::from_str(
        "-Cpasses=sancov-module -Cllvm-args=-sanitizer-coverage-level=4 -Cllvm-args=-sanitizer-coverage-inline-8bit-counters -Cllvm-args=-sanitizer-coverage-pc-table",
    );
    append_if(&mut s, !build.no_trace_compares, " -Cllvm-args=-sanitizer-coverage-trace-compares");
    append_if(&mut s, build.trace_div, " -Cllvm-args=-sanitizer-coverage-trace-divs");
    append_if(&mut s, build.trace_gep, " -Cllvm-args=-sanitizer-coverage-trace-geps");
    append_if(&mut s, !build.no_cfg_fuzzing, " --cfg fuzzing");
    append_if(&mut s, !build.strips_dead_code(), " -Clink-dead-code");
    append_if(&mut s, build.coverage, " -Cinstrument-coverage");
    append_sanitizer(&mut s, build.sanitizer);
    let linux = contains(build.triple.as_str(), "-linux-");
    append_if(&mut s, linux, " -Cllvm-args=-sanitizer-coverage-stack-depth");
    append_if(&mut s, !build.release || build.debug_assertions, " -Cdebug-assertions");
    let msvc = contains(build.triple.as_str(), "-msvc");
    append_if(&mut s, msvc && !build.no_include_main_msvc, " -Clink-arg=/include:main");
    append_if(&mut s, !build.dev, " -C codegen-units=1");
    append_user(&mut s, user);
    s
}

/// `default` appended to the user's options `user`, colon-separated; just
/// `default` where the user set none.
pub fn merge_options(user: &Option<String>, default: &str) -> (r: String)
    ensures
        r@ == merged_options(opt_text(*user), default@),
{
    match user {
        Some(u) => {
            if u.as_str().unicode_len() == 0 {
                String::from_str(default)
            } else {
                let mut s = u.clone();
                s.append(":");
                s.append(default);
                s
            }
        },
        None => String::from_str(default),
    }
}

/// The sanitizer runtime options variable to set, and its value: the user's
/// options with the defaults appended, for the address and thread sanitizers.
pub fn sanitizer_environment(build: &BuildOptions, env: &Environment) -> (r: Option<(String, String)>)
    ensures
        match r {
            Some(p) => sanitizer_env_spec(
                build.sanitizer,
                opt_text(env.asan_options),
                opt_text(env.tsan_options),
            ) == Some((p.0@, p.1@)),
            None => sanitizer_env_spec(
                build.sanitizer,
                opt_text(env.asan_options),
                opt_text(env.tsan_options),
            ) is None,
        },
{
    match build.sanitizer {
        Sanitizer::Address => Some(
            (
                String::from_str("ASAN_OPTIONS"),
                merge_options(&env.asan_options, "detect_odr_violation=0"),
            ),
        ),
        Sanitizer::Thread => Some(
            (
                String::from_str("TSAN_OPTIONS"),
                merge_options(&env.tsan_options, "report_signal_unsafe=0"),
            ),
        ),
        _ => None,
    }
}

/// The builder invocation for `subcommand` on the manifest `manifest`: its
/// arguments, the compiler flags in `RUSTFLAGS`, and the sanitizer options.
pub fn builder_invocation(
    subcommand: &str,
    manifest: &str,
    build: &BuildOptions,
    env: &Environment,
) -> (r: Invocation)
    ensures
        r.program@ == "cargo"@,
        texts(r.args@) == builder_args(subcommand@, manifest@, build@),
        env_texts(r.env@) == seq![("RUSTFLAGS"@, compiler_flags(build@, opt_text(env.rustflags)))]
            + match sanitizer_env_spec(
            build.sanitizer,
            opt_text(env.asan_options),
            opt_text(env.tsan_options),
        ) {
            Some(p) => seq![p],
            None => Seq::empty(),
        },
{
    let args = builder_arguments(subcommand, manifest, build);
    let mut vars: Vec<(String, String)> = Vec::new();
    vars.push((String::from_str("RUSTFLAGS"), compiler_flags_for(build, &env.rustflags)));
    let ghost first = env_texts(vars@);
    match sanitizer_environment(build, env) {
        Some(p) => vars.push(p),
        None => {},
    }
    assert(env_texts(vars@) =~= first + match sanitizer_env_spec(
        build.sanitizer,
        opt_text(env.asan_options),
        opt_text(env.tsan_options),
    ) {
        Some(p) => seq![p],
        None => Seq::<(Seq<char>, Seq<char>)>::empty(),
    });
    Invocation { program: String::from_str("cargo"), args, env: vars }
}

/// With the memory sanitizer the standard library is rebuilt, whatever the
/// build-std option says: the builder's arguments end with `-Z build-std`.
pub proof fn lemma_memory_sanitizer_rebuilds_std(
    subcommand: Seq<char>,
    manifest: Seq<char>,
    build: BuildOptions,
)
    requires
        build.sanitizer == Sanitizer::Memory,
    ensures
        rebuilds_std(build@),
        builder_args(subcommand, manifest, build@).subrange(
            builder_args(subcommand, manifest, build@).len() - 2,
            builder_args(subcommand, manifest, build@).len() as int,
        ) == seq!["-Z"@, "build-std"@],
{
    let a = builder_args(subcommand, manifest, build@);
    assert(a.subrange(a.len() - 2, a.len() as int) =~= seq!["-Z"@, "build-std"@]);
}

} // verus!
