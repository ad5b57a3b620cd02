use fuzzplan::commands::{Coverage, FuzzDirWrapper};
use fuzzplan::commands::ConfigError;
use fuzzplan::decimal::{parse_decimal, to_decimal};
use fuzzplan::flag_parse::FlagError;
use fuzzplan::options::{default_target, BuildOptions, Sanitizer};
use fuzzplan::translate::{
    builder_arguments, builder_invocation, compiler_flags_for, merge_options, sanitizer_environment,
    Environment,
};

const HOST: &str = "x86_64-unknown-linux-gnu";

fn no_env() -> Environment {
    Environment { rustflags: None, asan_options: None, tsan_options: None }
}

#[test]
fn default_options_render_no_flags() {
    let b = BuildOptions::defaults(HOST);
    assert!(b.to_flags(HOST).is_empty());
}

#[test]
fn options_render_in_flag_form() {
    let mut b = BuildOptions::defaults(HOST);
    b.dev = true;
    b.features = Some(String::from("features"));
    b.sanitizer = Sanitizer::Disabled;
    b.triple = String::from("custom_triple");
    b.unstable_flags = vec![String::from("unstable"), String::from("flags")];
    b.target_dir = Some(String::from("/tmp/test"));
    b.codegen_units = Some(16);
    b.strip_dead_code = Some(None);
    b.disable_branch_folding = Some(Some(false));
    assert_eq!(
        b.to_flags(HOST),
        vec![
            "-D",
            "--features=features",
            "--sanitizer=none",
            "--target=custom_triple",
            "-Zunstable",
            "-Zflags",
            "--target-dir=/tmp/test",
            "--codegen-units=16",
            "--strip-dead-code",
            "--disable-branch-folding=false",
        ]
    );
}

#[test]
fn coverage_is_rendered_only_when_set() {
    let mut b = BuildOptions::defaults(HOST);
    assert!(!b.to_flags(HOST).contains(&String::from("--coverage")));
    b.coverage = true;
    assert_eq!(b.to_flags(HOST), vec!["--coverage"]);
}

#[test]
fn sanitizer_display_names() {
    assert_eq!(Sanitizer::Address.to_string(), "address");
    assert_eq!(Sanitizer::Memory.to_string(), "memory");
    assert_eq!(Sanitizer::Disabled.to_string(), "");
    assert_eq!(Sanitizer::from_name("thread"), Some(Sanitizer::Thread));
    assert_eq!(Sanitizer::from_name("none"), Some(Sanitizer::Disabled));
    assert_eq!(Sanitizer::from_name("bogus"), None);
}

#[test]
fn fuzz_dir_wrapper_flag() {
    let w = FuzzDirWrapper { fuzz_dir: Some(String::from("custom_dir")) };
    assert_eq!(w.to_flag_string(), " --fuzz-dir=custom_dir");
    assert_eq!(FuzzDirWrapper { fuzz_dir: None }.to_flag_string(), "");
}

#[test]
fn decimal_text_both_ways() {
    assert_eq!(to_decimal(0), "0");
    assert_eq!(to_decimal(1234), "1234");
    assert_eq!(parse_decimal("0042"), Some(42));
    assert_eq!(parse_decimal(""), None);
    assert_eq!(parse_decimal("4x"), None);
    assert_eq!(parse_decimal("99999999999999999999999"), None);
}

#[test]
fn asan_options_default_when_unset() {
    let b = BuildOptions::defaults(HOST);
    let e = sanitizer_environment(&b, &no_env());
    assert_eq!(e, Some((String::from("ASAN_OPTIONS"), String::from("detect_odr_violation=0"))));
}

#[test]
fn asan_options_appended_to_user_value() {
    let b = BuildOptions::defaults(HOST);
    let env = Environment { rustflags: None, asan_options: Some(String::from("foo=1")), tsan_options: None };
    let e = sanitizer_environment(&b, &env);
    assert_eq!(
        e,
        Some((String::from("ASAN_OPTIONS"), String::from("foo=1:detect_odr_violation=0")))
    );
}

#[test]
fn tsan_options_and_no_options_for_others() {
    let mut b = BuildOptions::defaults(HOST);
    b.sanitizer = Sanitizer::Thread;
    let env = Environment { rustflags: None, asan_options: None, tsan_options: Some(String::new()) };
    assert_eq!(
        sanitizer_environment(&b, &env),
        Some((String::from("TSAN_OPTIONS"), String::from("report_signal_unsafe=0")))
    );
    b.sanitizer = Sanitizer::Leak;
    assert_eq!(sanitizer_environment(&b, &env), None);
    assert_eq!(merge_options(&Some(String::from("a=1")), "b=2"), "a=1:b=2");
}

#[test]
fn memory_sanitizer_forces_build_std() {
    let mut b = BuildOptions::defaults(HOST);
    b.sanitizer = Sanitizer::Memory;
    b.build_std = Some(false);
    let args = builder_arguments("build", "fuzz/Cargo.toml", &b);
    let n = args.len();
    assert_eq!(&args[n - 2..], &[String::from("-Z"), String::from("build-std")]);
    let flags = compiler_flags_for(&b, &None);
    assert!(flags.contains(" -Zsanitizer=memory -Zsanitizer-memory-track-origins"));
}

#[test]
fn build_std_unless_turned_off_or_coverage() {
    let mut b = BuildOptions::defaults(HOST);
    assert!(builder_arguments("build", "m", &b).contains(&String::from("build-std")));
    b.build_std = Some(false);
    assert!(!builder_arguments("build", "m", &b).contains(&String::from("build-std")));
    b.build_std = Some(true);
    assert!(builder_arguments("build", "m", &b).contains(&String::from("build-std")));
    b.build_std = None;
    b.coverage = true;
    assert!(!builder_arguments("build", "m", &b).contains(&String::from("build-std")));
}

#[test]
fn builder_arguments_release_by_default() {
    let mut b = BuildOptions::defaults(HOST);
    b.features = Some(String::from("a,b"));
    b.unstable_flags = vec![String::from("x")];
    assert_eq!(
        builder_arguments("build", "fuzz/Cargo.toml", &b),
        vec![
            "build",
            "--manifest-path",
            "fuzz/Cargo.toml",
            "--target",
            HOST,
            "--release",
            "--features",
            "a,b",
            "-Z",
            "x",
            "-Z",
            "build-std",
        ]
    );
    b.dev = true;
    assert!(!builder_arguments("build", "m", &b).contains(&String::from("--release")));
}

#[test]
fn compiler_flags_exact_for_defaults() {
    let b = BuildOptions::defaults(HOST);
    assert_eq!(
        compiler_flags_for(&b, &Some(String::from("-Cuser"))),
        "-Cpasses=sancov-module -Cllvm-args=-sanitizer-coverage-level=4 \
         -Cllvm-args=-sanitizer-coverage-inline-8bit-counters -Cllvm-args=-sanitizer-coverage-pc-table \
         -Cllvm-args=-sanitizer-coverage-trace-compares --cfg fuzzing -Clink-dead-code \
         -Zsanitizer=address -Cllvm-args=-sanitizer-coverage-stack-depth -Cdebug-assertions \
         -C codegen-units=1 -Cuser"
    );
}

#[test]
fn compiler_flags_follow_toggles() {
    let mut b = BuildOptions::defaults("x86_64-pc-windows-msvc");
    b.release = true;
    b.dev = false;
    b.no_trace_compares = true;
    b.trace_div = true;
    b.trace_gep = true;
    b.no_cfg_fuzzing = true;
    b.strip_dead_code = Some(None);
    b.coverage = true;
    b.sanitizer = Sanitizer::Disabled;
    let f = compiler_flags_for(&b, &None);
    assert!(!f.contains("trace-compares"));
    assert!(f.contains("-sanitizer-coverage-trace-divs"));
    assert!(f.contains("-sanitizer-coverage-trace-geps"));
    assert!(!f.contains("--cfg fuzzing"));
    assert!(!f.contains("-Clink-dead-code"));
    assert!(f.contains("-Cinstrument-coverage"));
    assert!(!f.contains("-Zsanitizer"));
    assert!(!f.contains("stack-depth"));
    assert!(!f.contains("-Cdebug-assertions"));
    assert!(f.contains("-Clink-arg=/include:main"));
    b.no_include_main_msvc = true;
    assert!(!compiler_flags_for(&b, &None).contains("/include:main"));
}

#[test]
fn builder_invocation_sets_environment() {
    let b = BuildOptions::defaults(HOST);
    let env = Environment {
        rustflags: Some(String::from("-Cmine")),
        asan_options: None,
        tsan_options: None,
    };
    let inv = builder_invocation("check", "m", &b, &env);
    assert_eq!(inv.program, "cargo");
    assert_eq!(inv.env.len(), 2);
    assert_eq!(inv.env[0].0, "RUSTFLAGS");
    assert!(inv.env[0].1.ends_with(" -Cmine"));
    assert_eq!(inv.env[1], (String::from("ASAN_OPTIONS"), String::from("detect_odr_violation=0")));
}

#[test]
fn coverage_refuses_build_std() {
    let mut c = Coverage {
        build: BuildOptions::defaults(HOST),
        fuzz_dir_wrapper: FuzzDirWrapper { fuzz_dir: None },
        llvm_path: None,
        target: String::from("t"),
        corpus: vec![],
        args: vec![],
    };
    c.build.build_std = Some(true);
    assert_eq!(c.prepare(), Err(ConfigError::BuildStdWithCoverage));
    assert!(!c.build.coverage);
    c.build.build_std = None;
    c.build.sanitizer = Sanitizer::Memory;
    assert_eq!(c.prepare(), Err(ConfigError::MemorySanitizerWithCoverage));
    assert!(!c.build.coverage);
    c.build.sanitizer = Sanitizer::Address;
    assert_eq!(c.prepare(), Ok(()));
    assert!(c.build.coverage);
}

#[test]
fn display_build_options() {
    let host = default_target();
    let default_opts = BuildOptions {
        dev: false,
        release: false,
        debug_assertions: false,
        verbose: false,
        no_default_features: false,
        all_features: false,
        features: None,
        build_std: None,
        careful_mode: false,
        sanitizer: Sanitizer::Address,
        triple: host.clone(),
        unstable_flags: Vec::new(),
        target_dir: None,
        coverage: false,
        codegen_units: None,
        strip_dead_code: None,
        no_cfg_fuzzing: false,
        no_trace_compares: false,
        trace_div: false,
        trace_gep: false,
        disable_branch_folding: None,
        no_include_main_msvc: false,
    };

    let opts = vec![
        default_opts.clone(),
        BuildOptions { dev: true, ..default_opts.clone() },
        BuildOptions { release: true, ..default_opts.clone() },
        BuildOptions { debug_assertions: true, ..default_opts.clone() },
        BuildOptions { verbose: true, ..default_opts.clone() },
        BuildOptions { no_default_features: true, ..default_opts.clone() },
        BuildOptions { all_features: true, ..default_opts.clone() },
        BuildOptions { features: Some(String::from("features")), ..default_opts.clone() },
        BuildOptions { sanitizer: Sanitizer::Disabled, ..default_opts.clone() },
        BuildOptions { triple: String::from("custom_triple"), ..default_opts.clone() },
        BuildOptions {
            unstable_flags: vec![String::from("unstable"), String::from("flags")],
            ..default_opts.clone()
        },
        BuildOptions { target_dir: Some(String::from("/tmp/test")), ..default_opts.clone() },
        BuildOptions { build_std: Some(false), ..default_opts.clone() },
        BuildOptions { coverage: false, ..default_opts },
    ];

    for case in opts {
        let rendered = case.to_string(&host);
        let tokens: Vec<String> = rendered.split(' ').filter(|t| !t.is_empty()).map(String::from).collect();
        assert_eq!(Ok(case.clone()), BuildOptions::parse_flags(&tokens, &host));
    }
}

#[test]
fn flag_round_trip_of_every_option() {
    let mut b = BuildOptions::defaults(HOST);
    b.release = true;
    b.debug_assertions = true;
    b.sanitizer = Sanitizer::Memory;
    b.build_std = Some(true);
    b.careful_mode = true;
    b.coverage = true;
    b.codegen_units = Some(7);
    b.strip_dead_code = Some(Some(true));
    b.no_cfg_fuzzing = true;
    b.no_trace_compares = true;
    b.trace_div = true;
    b.trace_gep = true;
    b.disable_branch_folding = Some(None);
    b.no_include_main_msvc = true;
    assert_eq!(BuildOptions::parse_flags(&b.to_flags(HOST), HOST), Ok(b));
    let bad = vec![String::from("--bogus")];
    assert_eq!(BuildOptions::parse_flags(&bad, HOST), Err(FlagError::Unrecognized(String::from("--bogus"))));
    let clash = vec![String::from("-D"), String::from("-O")];
    assert_eq!(BuildOptions::parse_flags(&clash, HOST), Err(FlagError::Conflicting));
    let no_value = vec![String::from("--features")];
    assert!(BuildOptions::parse_flags(&no_value, HOST).is_err());
}
