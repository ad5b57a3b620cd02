use fuzzplan::commands::{Cmin, Coverage, FuzzDirWrapper, Run, Tmin};
use fuzzplan::coverage::{check_corpus, corpus_name, merge_invocation, rustlib, CoverageError};
use fuzzplan::manifest::TomlValue;
use fuzzplan::options::{BuildMode, BuildOptions};
use fuzzplan::pipeline::{coverage_step, corpus_swap, step, Action, CoverageAction, Event, Pipeline, Stage};
use fuzzplan::project::{FuzzProject, ProjectError};
use fuzzplan::translate::Environment;
use fuzzplan::triage::{
    failure_report, fuzz_dir_flag, latest_new_file, minimized_report, new_files_since, spaced_tokens,
    strip_current_dir_prefix, DirEntryInfo, Timestamp,
};

const HOST: &str = "x86_64-unknown-linux-gnu";

fn no_env() -> Environment {
    Environment { rustflags: None, asan_options: None, tsan_options: None }
}

fn table(entries: Vec<(&str, TomlValue)>) -> TomlValue {
    TomlValue::Table(entries.into_iter().map(|(k, v)| (String::from(k), v)).collect())
}

fn fuzz_manifest(marker: bool, bins: Vec<&str>) -> TomlValue {
    table(vec![
        (
            "package",
            table(vec![("metadata", table(vec![("cargo-fuzz", TomlValue::Boolean(marker))]))]),
        ),
        (
            "bin",
            TomlValue::Array(
                bins.into_iter().map(|b| table(vec![("name", TomlValue::Str(String::from(b)))])).collect(),
            ),
        ),
    ])
}

fn project() -> FuzzProject {
    FuzzProject::new(None, "/work/proj", &fuzz_manifest(true, vec!["b", "a"])).ok().unwrap()
}

fn entry(path: &str, is_file: bool, secs: u64, nanos: u32) -> DirEntryInfo {
    DirEntryInfo { path: String::from(path), is_file, modified: Timestamp { secs, nanos } }
}

#[test]
fn project_paths() {
    let p = project();
    assert_eq!(p.fuzz_dir(), "/work/proj/fuzz");
    assert_eq!(p.manifest_path(), "/work/proj/fuzz/Cargo.toml");
    assert_eq!(p.corpus_for("t"), "/work/proj/fuzz/corpus/t");
    assert_eq!(p.artifacts_for("t"), "/work/proj/fuzz/artifacts/t/");
    assert_eq!(
        p.coverage_for("t"),
        (
            String::from("/work/proj/fuzz/coverage/t/raw"),
            String::from("/work/proj/fuzz/coverage/t/coverage.profdata")
        )
    );
    assert_eq!(p.target_path("t", false), "/work/proj/fuzz/fuzz_targets/t.rs");
    assert_eq!(p.target_path("t", true), "/work/proj/fuzz/fuzzers/t.rs");
    assert_eq!(p.targets(), &vec![String::from("a"), String::from("b")]);
    assert!(p.fuzz_dir_is_default_path());
}

#[test]
fn project_needs_fuzz_manifest() {
    assert!(matches!(
        FuzzProject::new(None, "/p", &fuzz_manifest(false, vec!["a"])),
        Err(ProjectError::NotFuzzManifest)
    ));
    let p = FuzzProject::new(Some(String::from("custom_dir")), "/p", &fuzz_manifest(true, vec![])).ok().unwrap();
    assert_eq!(p.fuzz_dir(), "custom_dir");
    assert!(!p.fuzz_dir_is_default_path());
}

#[test]
fn build_command_for_one_or_all_targets() {
    let p = project();
    let b = BuildOptions::defaults(HOST);
    let one = p.exec_build(BuildMode::Build, &b, Some("t"), &no_env(), "/cwd", HOST);
    assert_eq!(one.args[0], "build");
    assert_eq!(&one.args[one.args.len() - 2..], &[String::from("--bin"), String::from("t")]);
    assert_eq!(one.env.len(), 2);
    assert_eq!(one.env[0].0, "RUSTFLAGS");
    assert_eq!(one.env[1], (String::from("ASAN_OPTIONS"), String::from("detect_odr_violation=0")));
    let all = p.exec_build(BuildMode::Check, &b, None, &no_env(), "/cwd", HOST);
    assert_eq!(all.args[0], "check");
    assert_eq!(all.args.last().unwrap(), "--bins");
    let mut cov = b.clone();
    cov.coverage = true;
    let c = p.exec_build(BuildMode::Build, &cov, Some("t"), &no_env(), "/cwd", HOST);
    assert_eq!(
        &c.args[c.args.len() - 2..],
        &[String::from("--target-dir"), format!("/cwd/target/{}/coverage", HOST)]
    );
}

fn run_opts(jobs: u16, corpus: Vec<String>) -> Run {
    Run {
        build: BuildOptions::defaults(HOST),
        target: String::from("t"),
        corpus,
        fuzz_dir_wrapper: FuzzDirWrapper { fuzz_dir: None },
        jobs,
        args: vec![String::from("-runs=1000")],
    }
}

#[test]
fn fuzz_command_puts_corpus_last() {
    let p = project();
    let inv = p.exec_fuzz(&run_opts(1, vec![]), &no_env());
    let n = inv.args.len();
    assert_eq!(
        &inv.args[n - 4..],
        &[
            String::from("--"),
            String::from("-artifact_prefix=/work/proj/fuzz/artifacts/t/"),
            String::from("-runs=1000"),
            String::from("/work/proj/fuzz/corpus/t"),
        ]
    );
    let inv = p.exec_fuzz(&run_opts(4, vec![String::from("c1"), String::from("c2")]), &no_env());
    let n = inv.args.len();
    assert_eq!(
        &inv.args[n - 4..],
        &[String::from("-runs=1000"), String::from("-fork=4"), String::from("c1"), String::from("c2")]
    );
}

#[test]
fn tmin_command() {
    let p = project();
    let t = Tmin {
        build: BuildOptions::defaults(HOST),
        fuzz_dir_wrapper: FuzzDirWrapper { fuzz_dir: None },
        target: String::from("t"),
        runs: 255,
        test_case: String::from("crash-1"),
        args: vec![String::from("-x")],
    };
    let inv = p.exec_tmin(&t, &no_env());
    let n = inv.args.len();
    assert_eq!(
        &inv.args[n - 4..],
        &[
            String::from("-minimize_crash=1"),
            String::from("-runs=255"),
            String::from("crash-1"),
            String::from("-x")
        ]
    );
}

#[test]
fn cmin_merges_corpus_into_scratch() {
    let p = project();
    let c = Cmin {
        build: BuildOptions::defaults(HOST),
        fuzz_dir_wrapper: FuzzDirWrapper { fuzz_dir: None },
        target: String::from("foo"),
        corpus: None,
        args: vec![],
    };
    let corpus = p.cmin_corpus(&c);
    assert_eq!(corpus, "/work/proj/fuzz/corpus/foo");
    let inv = p.exec_cmin(&c, &no_env(), "/work/proj/fuzz/.tmp", corpus.as_str());
    let n = inv.args.len();
    assert_eq!(
        &inv.args[n - 3..],
        &[
            String::from("-merge=1"),
            String::from("/work/proj/fuzz/.tmp/corpus"),
            String::from("/work/proj/fuzz/corpus/foo")
        ]
    );
}

#[test]
fn new_files_since_keeps_only_newer_regular_files() {
    let since = Timestamp { secs: 100, nanos: 500 };
    let entries = vec![
        entry("old", true, 100, 499),
        entry("same", true, 100, 500),
        entry("new", true, 100, 501),
        entry("dir", false, 200, 0),
        entry("newer", true, 101, 0),
    ];
    assert_eq!(new_files_since(&entries, since), vec!["new", "newer"]);
}

#[test]
fn no_crash_leaves_no_new_artifacts() {
    let since = Timestamp { secs: 100, nanos: 0 };
    let entries = vec![entry("crash-old", true, 50, 0)];
    assert!(new_files_since(&entries, since).is_empty());
    assert_eq!(latest_new_file(&entries, since), None);
}

#[test]
fn latest_new_file_picks_newest() {
    let since = Timestamp { secs: 10, nanos: 0 };
    let entries = vec![
        entry("a", true, 11, 0),
        entry("b", true, 12, 5),
        entry("c", false, 99, 0),
        entry("d", true, 12, 4),
    ];
    assert_eq!(latest_new_file(&entries, since), Some(1));
}

#[test]
fn strip_prefix_of_current_dir() {
    assert_eq!(strip_current_dir_prefix("/cwd/fuzz/artifacts/x", "/cwd"), "fuzz/artifacts/x");
    assert_eq!(strip_current_dir_prefix("/other/x", "/cwd"), "/other/x");
}

#[test]
fn crash_report_has_reproduce_line() {
    let b = BuildOptions::defaults(HOST);
    let opts = spaced_tokens(&b.to_flags(HOST));
    let flag = fuzz_dir_flag(false, "custom_dir");
    let r = failure_report(
        "custom_dir/artifacts/yes_crash/crash-1",
        &Some(String::from("[7]")),
        flag.as_str(),
        opts.as_str(),
        "yes_crash",
        true,
    );
    assert!(r.contains(
        "Reproduce with:\n\n\tcargo fuzz run --fuzz-dir custom_dir yes_crash custom_dir/artifacts/yes_crash/crash-1\n"
    ));
    assert!(r.contains(
        "\tcargo fuzz tmin --fuzz-dir custom_dir yes_crash custom_dir/artifacts/yes_crash/crash-1"
    ));
    assert!(r.contains("Output of `std::fmt::Debug`:\n\n[7]"));
    let r2 = failure_report("a", &None, "", " -D", "t", false);
    assert!(r2.contains("\tcargo fuzz run -D t a"));
    assert!(!r2.contains("tmin"));
}

#[test]
fn coverage_refuses_empty_corpus() {
    let p = project();
    let mut build = BuildOptions::defaults(HOST);
    build.coverage = true;
    let c = Coverage {
        build,
        fuzz_dir_wrapper: FuzzDirWrapper { fuzz_dir: None },
        llvm_path: None,
        target: String::from("t"),
        corpus: vec![],
        args: vec![],
    };
    let corpora = vec![p.corpus_for("t")];
    let names = vec![String::from("t")];
    let scratches = vec![String::from("/tmp/s0")];
    let r = p.exec_coverage(&c, &corpora, &names, 0, "/cwd", HOST, &scratches, "llvm-profdata");
    assert!(matches!(r, Err(CoverageError::EmptyCorpus)));
    assert!(CoverageError::EmptyCorpus.message().contains("Try running the fuzzer first"));
    assert!(CoverageError::EmptyCorpus.message().contains("provide a nonempty corpus directory"));
    assert_eq!(check_corpus(3), Ok(()));
}

#[test]
fn coverage_plan_runs_each_corpus_then_merges() {
    let p = project();
    let mut build = BuildOptions::defaults(HOST);
    build.coverage = true;
    let c = Coverage {
        build,
        fuzz_dir_wrapper: FuzzDirWrapper { fuzz_dir: None },
        llvm_path: None,
        target: String::from("t"),
        corpus: vec![],
        args: vec![String::from("-x")],
    };
    let corpora = vec![String::from("c/one"), String::from("c/two")];
    let names = vec![String::from("one"), String::from("two")];
    let plan = p
        .exec_coverage(
            &c,
            &corpora,
            &names,
            5,
            "/cwd",
            HOST,
            &vec![String::from("/tmp/s0"), String::from("/tmp/s1")],
            "llvm-profdata",
        )
        .ok()
        .unwrap();
    assert_eq!(plan.runs.len(), 2);
    assert_eq!(plan.runs[0].program, format!("/cwd/target/{h}/coverage/{h}/release/t", h = HOST));
    assert_eq!(plan.runs[0].args, vec!["-merge=1", "/tmp/s0", "c/one", "-x"]);
    assert_eq!(plan.runs[1].args, vec!["-merge=1", "/tmp/s1", "c/two", "-x"]);
    assert_eq!(
        plan.runs[1].env,
        vec![(
            String::from("LLVM_PROFILE_FILE"),
            String::from("/work/proj/fuzz/coverage/t/raw/default-1-two.profraw")
        )]
    );
    assert_eq!(plan.merge.program, "llvm-profdata");
    assert_eq!(
        plan.merge.args,
        vec![
            "merge",
            "-sparse",
            "/work/proj/fuzz/coverage/t/raw",
            "-o",
            "/work/proj/fuzz/coverage/t/coverage.profdata"
        ]
    );
}

#[test]
fn merge_tool_and_rustlib_paths() {
    assert_eq!(rustlib("/sys", HOST), format!("/sys/lib/rustlib/{}/bin", HOST));
    let m = merge_invocation("tool", "raw", "out");
    assert_eq!(m.args, vec!["merge", "-sparse", "raw", "-o", "out"]);
}

#[test]
fn run_pipeline_transitions() {
    let f = Pipeline::Fuzz;
    assert_eq!(step(f, Stage::Idle, Event::Started), (Stage::Building, Action::Build));
    assert_eq!(step(f, Stage::Building, Event::BuildFinished(false)), (Stage::Failed, Action::FinishWithFailure));
    assert_eq!(step(f, Stage::Building, Event::BuildFinished(true)), (Stage::Running, Action::RunEngine));
    assert_eq!(step(f, Stage::Running, Event::EngineFinished(true)), (Stage::Succeeded, Action::FinishWithSuccess));
    assert_eq!(
        step(f, Stage::Running, Event::EngineFinished(false)),
        (Stage::Concluding, Action::ReportNewArtifacts)
    );
    assert_eq!(step(f, Stage::Concluding, Event::Concluded), (Stage::Failed, Action::FinishWithFailure));
    assert_eq!(step(f, Stage::Failed, Event::Started), (Stage::Failed, Action::Nothing));
}

#[test]
fn minimize_pipelines_transitions() {
    let t = Pipeline::MinimizeInput;
    assert_eq!(step(t, Stage::Building, Event::BuildFinished(false)), (Stage::Failed, Action::FinishWithFailure));
    assert_eq!(
        step(t, Stage::Running, Event::EngineFinished(false)),
        (Stage::Failed, Action::ExplainMinimizeFailure)
    );
    assert_eq!(step(t, Stage::Running, Event::EngineFinished(true)), (Stage::Concluding, Action::ReportMinimized));
    assert_eq!(step(t, Stage::Concluding, Event::Concluded), (Stage::Succeeded, Action::FinishWithSuccess));
    let c = Pipeline::MinimizeCorpus;
    assert_eq!(step(c, Stage::Building, Event::BuildFinished(false)), (Stage::Failed, Action::FinishWithFailure));
    assert_eq!(step(c, Stage::Running, Event::EngineFinished(true)), (Stage::Concluding, Action::SwapCorpus));
    assert_eq!(step(c, Stage::Running, Event::EngineFinished(false)), (Stage::Concluding, Action::KeepCorpus));
    assert_eq!(step(c, Stage::Concluding, Event::Concluded), (Stage::Succeeded, Action::FinishWithSuccess));
}

#[test]
fn coverage_steps_stop_at_first_failure() {
    assert_eq!(coverage_step(0, 2, true), CoverageAction::RunCorpus(0));
    assert_eq!(coverage_step(1, 2, true), CoverageAction::RunCorpus(1));
    assert_eq!(coverage_step(2, 2, true), CoverageAction::Merge);
    assert_eq!(coverage_step(1, 2, false), CoverageAction::Fail);
}

#[test]
fn minimized_report_has_header_and_reproduce_line_only() {
    let r = minimized_report(
        "fuzz/artifacts/i_hate_zed/minimized-from-abc",
        &None,
        "",
        " --sanitizer=none",
        "i_hate_zed",
    );
    assert!(r.starts_with("Minimized artifact:\n\n\tfuzz/artifacts/i_hate_zed/minimized-from-"));
    assert!(r.contains(
        "Reproduce with:\n\n\tcargo fuzz run --sanitizer=none i_hate_zed fuzz/artifacts/i_hate_zed/minimized-from-"
    ));
    assert!(!r.contains("tmin"));
    assert!(!r.contains("Failing input"));
}

#[test]
fn corpus_swap_only_on_success() {
    let r = corpus_swap(true, "fuzz/corpus/foo", "fuzz/.tmpX");
    assert_eq!(
        r,
        vec![
            (String::from("fuzz/corpus/foo"), String::from("fuzz/.tmpX/old")),
            (String::from("fuzz/.tmpX/corpus"), String::from("fuzz/corpus/foo")),
        ]
    );
    assert!(corpus_swap(false, "fuzz/corpus/foo", "fuzz/.tmpX").is_empty());
}

#[test]
fn options_display_string() {
    let mut b = BuildOptions::defaults(HOST);
    assert_eq!(b.to_string(HOST), "");
    b.dev = true;
    b.sanitizer = fuzzplan::options::Sanitizer::Disabled;
    assert_eq!(b.to_string(HOST), " -D --sanitizer=none");
    assert_eq!(spaced_tokens(&vec![String::from("a"), String::from("b")]), " a b");
}

#[test]
fn fork_only_for_more_than_one_job() {
    let p = project();
    for jobs in [0u16, 1u16] {
        let inv = p.exec_fuzz(&run_opts(jobs, vec![]), &no_env());
        assert!(!inv.args.iter().any(|a| a.starts_with("-fork=")));
    }
    let inv = p.exec_fuzz(&run_opts(2, vec![]), &no_env());
    assert!(inv.args.contains(&String::from("-fork=2")));
}

#[test]
fn same_named_corpora_get_distinct_profiles() {
    let p = project();
    let mut build = BuildOptions::defaults(HOST);
    build.coverage = true;
    let c = Coverage {
        build,
        fuzz_dir_wrapper: FuzzDirWrapper { fuzz_dir: None },
        llvm_path: None,
        target: String::from("t"),
        corpus: vec![],
        args: vec![],
    };
    let corpora = vec![String::from("a/seeds"), String::from("b/seeds")];
    let names = vec![String::from("seeds"), String::from("seeds")];
    let scratches = vec![String::from("/tmp/s0"), String::from("/tmp/s1")];
    let plan = p.exec_coverage(&c, &corpora, &names, 2, "/cwd", HOST, &scratches, "tool").ok().unwrap();
    assert_ne!(plan.runs[0].env[0].1, plan.runs[1].env[0].1);
    assert_eq!(plan.runs[0].env[0].1, "/work/proj/fuzz/coverage/t/raw/default-0-seeds.profraw");
}

#[test]
fn corpus_names_from_paths() {
    assert_eq!(corpus_name("fuzz/corpus/run_alt"), Some(String::from("run_alt")));
    assert_eq!(corpus_name("fuzz/alt-corpus/run_alt/"), Some(String::from("run_alt")));
    assert_eq!(corpus_name("seeds"), Some(String::from("seeds")));
    assert_eq!(corpus_name("a/.."), None);
    assert_eq!(corpus_name("/"), None);
    assert_eq!(corpus_name(""), None);
}

#[test]
fn debug_format_run_of_one_input() {
    let p = project();
    let b = BuildOptions::defaults(HOST);
    let inv = p.debug_fmt_invocation(&b, "t", &no_env(), "/tmp/dbg", "fuzz/corpus/t/0");
    assert_eq!(inv.args.last().unwrap(), "fuzz/corpus/t/0");
    assert_eq!(
        inv.env.last().unwrap(),
        &(String::from("RUST_LIBFUZZER_DEBUG_PATH"), String::from("/tmp/dbg"))
    );
    assert_eq!(inv.env[0].0, "RUSTFLAGS");
}
