//! A fuzz project: where its files live, and the commands that build, run and
//! minimize its fuzz targets.

use vstd::prelude::*;
use vstd::string::*;
use crate::commands::{Cmin, Run, Tmin};
use crate::decimal::{decimal_text, to_decimal};
use crate::manifest::{
    collect_targets, declared_targets, is_fuzz_manifest, is_fuzz_manifest_spec, sorted_texts, TomlValue,
};
use crate::options::{opt_text, texts, BuildMode, BuildOptions};
use crate::text::{has_prefix, has_suffix, ends_with, str_eq};
use crate::translate::{
    builder_args, builder_invocation, compiler_flags, env_texts, sanitizer_env_spec, Environment, Invocation,
};

verus! {

/// The name of the fuzz project directory inside the project being fuzzed.
pub const DEFAULT_FUZZ_DIR: &'static str = "fuzz";

/// `a/b`.
pub open spec fn join(a: Seq<char>, b: Seq<char>) -> Seq<char> {
    a + "/"@ + b
}

/// `a/b`.
pub fn join_path(a: &str, b: &str) -> (r: String)
    ensures
        r@ == join(a@, b@),
{
    String::from_str(a).concat("/").concat(b)
}

/// Why a fuzz project cannot be opened.
#[derive(Clone, Copy, Debug, PartialEq, Eq, Structural)]
pub enum ProjectError {
    /// The manifest does not carry the fuzz-project marker.
    NotFuzzManifest,
}

/// A fuzz project and the project it fuzzes.
pub struct FuzzProject {
    fuzz_dir: String,
    project_dir: String,
    targets: Vec<String>,
}

/// The environment of every builder invocation: the compiler flags in
/// `RUSTFLAGS`, then the sanitizer runtime options where the sanitizer has any.
pub open spec fn builder_env(build: BuildOptions, env: Environment) -> Seq<(Seq<char>, Seq<char>)> {
    seq![("RUSTFLAGS"@, compiler_flags(build@, opt_text(env.rustflags)))] + match sanitizer_env_spec(
        build.sanitizer,
        opt_text(env.asan_options),
        opt_text(env.tsan_options),
    ) {
        Some(p) => seq![p],
        None => Seq::empty(),
    }
}

/// The arguments of a `cargo run` of fuzz target `target`, up to and including
/// the artifact prefix.
pub open spec fn run_args(
    manifest: Seq<char>,
    build: BuildOptions,
    target: Seq<char>,
    artifacts: Seq<char>,
) -> Seq<Seq<char>> {
    builder_args("run"@, manifest, build@) + seq!["--bin"@, target] + match build.target_dir {
        Some(d) => seq!["--target-dir"@, d@],
        None => Seq::empty(),
    } + seq!["--"@, "-artifact_prefix="@ + artifacts]
}

/// The fuzz engine's arguments for a run: the pass-through arguments, `-fork=N`
/// only for more than one job, and the corpora last.
pub open spec fn engine_args(run: Run, default_corpus: Seq<char>) -> Seq<Seq<char>> {
    texts(run.args@) + if run.jobs > 1 {
        seq!["-fork="@ + decimal_text(run.jobs as nat)]
    } else {
        Seq::empty()
    } + if run.corpus@.len() > 0 {
        texts(run.corpus@)
    } else {
        seq![default_corpus]
    }
}

/// The fuzz engine's arguments for minimizing a failing input.
pub open spec fn tmin_args(tmin: Tmin) -> Seq<Seq<char>> {
    seq!["-minimize_crash=1"@, "-runs="@ + decimal_text(tmin.runs as nat), tmin.test_case@] + texts(
        tmin.args@,
    )
}

fn push_arg(r: &mut Vec<String>, t: String)
    ensures
        texts(final(r)@) == texts(old(r)@) + seq![t@],
{
    let ghost before = r@;
    r.push(t);
    assert(texts(r@) =~= texts(before) + seq![t@]);
}

fn push_all(r: &mut Vec<String>, ts: &Vec<String>)
    ensures
        texts(final(r)@) == texts(old(r)@) + texts(ts@),
{
    let ghost start = texts(r@);
    let mut i: usize = 0;
    while i < ts.len()
        invariant
            i <= ts@.len(),
            texts(r@) == start + texts(ts@.subrange(0, i as int)),
        decreases ts@.len() - i,
    {
        push_arg(r, ts[i].clone());
        assert(texts(ts@.subrange(0, i + 1)) =~= texts(ts@.subrange(0, i as int)) + seq![ts@[i as int]@]);
        i += 1;
    }
    assert(ts@.subrange(0, i as int) =~= ts@);
}

impl FuzzProject {
    /// A project whose fuzz directory is `fuzz_dir_opt`, or `fuzz` inside the
    /// project directory when none is given.
    pub fn manage_initial_instance(fuzz_dir_opt: Option<String>, project_dir: &str) -> (r: FuzzProject)
        ensures
            r.fuzz_dir_view() == match fuzz_dir_opt {
                Some(d) => d@,
                None => join(project_dir@, DEFAULT_FUZZ_DIR@),
            },
            r.project_dir_view() == project_dir@,
            r.targets_view().len() == 0,
    {
        let fuzz_dir = match fuzz_dir_opt {
            Some(d) => d,
            None => join_path(project_dir, DEFAULT_FUZZ_DIR),
        };
        FuzzProject { fuzz_dir, project_dir: String::from_str(project_dir), targets: Vec::new() }
    }

    /// Opens the fuzz project whose manifest is `manifest`: the manifest must
    /// carry the fuzz-project marker, and the project's targets are the ones it
    /// declares, sorted.
    pub fn new(fuzz_dir_opt: Option<String>, project_dir: &str, manifest: &TomlValue) -> (r: Result<
        FuzzProject,
        ProjectError,
    >)
        ensures
            !is_fuzz_manifest_spec(*manifest) <==> r == Err::<FuzzProject, ProjectError>(
                ProjectError::NotFuzzManifest,
            ),
            r matches Ok(p) ==> {
                &&& sorted_texts(p.targets_view())
                &&& p.targets_view().to_multiset() == declared_targets(*manifest).to_multiset()
                &&& p.project_dir_view() == project_dir@
                &&& p.fuzz_dir_view() == match fuzz_dir_opt {
                    Some(d) => d@,
                    None => join(project_dir@, DEFAULT_FUZZ_DIR@),
                }
            },
    {
        if !is_fuzz_manifest(manifest) {
            return Err(ProjectError::NotFuzzManifest);
        }
        let mut project = Self::manage_initial_instance(fuzz_dir_opt, project_dir);
        project.targets = collect_targets(manifest);
        Ok(project)
    }

    /// The fuzz project directory.
    pub closed spec fn fuzz_dir_view(&self) -> Seq<char> {
        self.fuzz_dir@
    }

    /// The directory of the project being fuzzed.
    pub closed spec fn project_dir_view(&self) -> Seq<char> {
        self.project_dir@
    }

    /// The declared fuzz targets.
    pub closed spec fn targets_view(&self) -> Seq<Seq<char>> {
        texts(self.targets@)
    }

    /// The fuzz project directory.
    pub fn fuzz_dir(&self) -> (r: &str)
        ensures
            r@ == self.fuzz_dir_view(),
    {
        self.fuzz_dir.as_str()
    }

    /// The declared fuzz targets.
    pub fn targets(&self) -> (r: &Vec<String>)
        ensures
            texts(r@) == self.targets_view(),
    {
        &self.targets
    }

    /// The fuzz project's manifest.
    pub fn manifest_path(&self) -> (r: String)
        ensures
            r@ == join(self.fuzz_dir_view(), "Cargo.toml"@),
    {
        join_path(self.fuzz_dir.as_str(), "Cargo.toml")
    }

    /// The corpus directory of `target`.
    pub fn corpus_for(&self, target: &str) -> (r: String)
        ensures
            r@ == join(join(self.fuzz_dir_view(), "corpus"@), target@),
    {
        let p = join_path(self.fuzz_dir.as_str(), "corpus");
        join_path(p.as_str(), target)
    }

    /// The artifacts directory of `target`, with a trailing separator: the fuzz
    /// engine joins paths by concatenation.
    pub fn artifacts_for(&self, target: &str) -> (r: String)
        ensures
            r@ == join(join(self.fuzz_dir_view(), "artifacts"@), target@) + "/"@,
    {
        let p = join_path(self.fuzz_dir.as_str(), "artifacts");
        join_path(p.as_str(), target).concat("/")
    }

    /// The raw coverage directory of `target` and its merged profile file.
    pub fn coverage_for(&self, target: &str) -> (r: (String, String))
        ensures
            r.0@ == join(join(join(self.fuzz_dir_view(), "coverage"@), target@), "raw"@),
            r.1@ == join(join(join(self.fuzz_dir_view(), "coverage"@), target@), "coverage.profdata"@),
    {
        let c = join_path(self.fuzz_dir.as_str(), "coverage");
        let t = join_path(c.as_str(), target);
        (join_path(t.as_str(), "raw"), join_path(t.as_str(), "coverage.profdata"))
    }

    /// The directory of the target scripts: the older `fuzzers` where it
    /// exists (`old_layout`), else `fuzz_targets`.
    pub fn fuzz_targets_dir(&self, old_layout: bool) -> (r: String)
        ensures
            r@ == join(self.fuzz_dir_view(), if old_layout { "fuzzers"@ } else { "fuzz_targets"@ }),
    {
        if old_layout {
            join_path(self.fuzz_dir.as_str(), "fuzzers")
        } else {
            join_path(self.fuzz_dir.as_str(), "fuzz_targets")
        }
    }

    /// The script of `target`.
    pub fn target_path(&self, target: &str, old_layout: bool) -> (r: String)
        ensures
            r@ == join(
                join(self.fuzz_dir_view(), if old_layout { "fuzzers"@ } else { "fuzz_targets"@ }),
                target@,
            ) + ".rs"@,
    {
        let d = self.fuzz_targets_dir(old_layout);
        join_path(d.as_str(), target).concat(".rs")
    }

    /// Whether the fuzz directory is the default one: its last component is
    /// `fuzz`.
    pub fn fuzz_dir_is_default_path(&self) -> (r: bool)
        ensures
            r == (self.fuzz_dir_view() == DEFAULT_FUZZ_DIR@ || has_suffix(
                self.fuzz_dir_view(),
                "/"@ + DEFAULT_FUZZ_DIR@,
            ) || has_suffix(self.fuzz_dir_view(), "/"@ + DEFAULT_FUZZ_DIR@ + "/"@)),
    {
        let slash_fuzz = String::from_str("/").concat(DEFAULT_FUZZ_DIR);
        let slash_fuzz_slash = String::from_str("/").concat(DEFAULT_FUZZ_DIR).concat("/");
        str_eq(self.fuzz_dir.as_str(), DEFAULT_FUZZ_DIR) || ends_with(
            self.fuzz_dir.as_str(),
            slash_fuzz.as_str(),
        ) || ends_with(self.fuzz_dir.as_str(), slash_fuzz_slash.as_str())
    }

    /// The build directory: the one asked for, else for coverage a directory
    /// of its own under `current_dir`, so that coverage and fuzzing builds do
    /// not invalidate each other; else the builder's default.
    pub fn target_dir(&self, build: &BuildOptions, current_dir: &str, host: &str) -> (r: Option<String>)
        ensures
            opt_text(r) == match build.target_dir {
                Some(d) => Some(d@),
                None => if build.coverage {
                    Some(join(join(join(current_dir@, "target"@), host@), "coverage"@))
                } else {
                    None
                },
            },
    {
        match &build.target_dir {
            Some(d) => Some(d.clone()),
            None => {
                if build.coverage {
                    let t = join_path(current_dir, "target");
                    let h = join_path(t.as_str(), host);
                    Some(join_path(h.as_str(), "coverage"))
                } else {
                    None
                }
            },
        }
    }

    /// The builder invocation that builds (or checks) one fuzz target, or all
    /// of them when none is named.
    pub fn exec_build(
        &self,
        mode: BuildMode,
        build: &BuildOptions,
        fuzz_target: Option<&str>,
        env: &Environment,
        current_dir: &str,
        host: &str,
    ) -> (r: Invocation)
        ensures
            r.program@ == "cargo"@,
            env_texts(r.env@) == builder_env(*build, *env),
            texts(r.args@) == builder_args(
                match mode {
                    BuildMode::Build => "build"@,
                    BuildMode::Check => "check"@,
                },
                join(self.fuzz_dir_view(), "Cargo.toml"@),
                build@,
            ) + match fuzz_target {
                Some(t) => seq!["--bin"@, t@],
                None => seq!["--bins"@],
            } + match build.target_dir {
                Some(d) => seq!["--target-dir"@, d@],
                None => if build.coverage {
                    seq![
                        "--target-dir"@,
                        join(join(join(current_dir@, "target"@), host@), "coverage"@),
                    ]
                } else {
                    Seq::empty()
                },
            },
    {
        let sub = match mode {
            BuildMode::Build => "build",
            BuildMode::Check => "check",
        };
        let manifest = self.manifest_path();
        let mut cmd = builder_invocation(sub, manifest.as_str(), build, env);
        let ghost base = texts(cmd.args@);
        match fuzz_target {
            Some(t) => {
                push_arg(&mut cmd.args, String::from_str("--bin"));
                push_arg(&mut cmd.args, String::from_str(t));
            },
            None => push_arg(&mut cmd.args, String::from_str("--bins")),
        }
        let ghost with_bins = texts(cmd.args@);
        assert(with_bins =~= base + match fuzz_target {
            Some(t) => seq!["--bin"@, t@],
            None => seq!["--bins"@],
        });
        match self.target_dir(build, current_dir, host) {
            Some(d) => {
                push_arg(&mut cmd.args, String::from_str("--target-dir"));
                push_arg(&mut cmd.args, d);
            },
            None => {},
        }
        assert(texts(cmd.args@) =~= with_bins + match build.target_dir {
            Some(d) => seq!["--target-dir"@, d@],
            None => if build.coverage {
                seq!["--target-dir"@, join(join(join(current_dir@, "target"@), host@), "coverage"@)]
            } else {
                Seq::<Seq<char>>::empty()
            },
        });
        cmd
    }

    /// The `cargo run` invocation of fuzz target `target`, up to and including
    /// the artifact prefix handed to the fuzz engine.
    pub fn cargo_run(&self, build: &BuildOptions, target: &str, env: &Environment) -> (r: Invocation)
        ensures
            r.program@ == "cargo"@,
            env_texts(r.env@) == builder_env(*build, *env),
            texts(r.args@) == run_args(
                join(self.fuzz_dir_view(), "Cargo.toml"@),
                *build,
                target@,
                join(join(self.fuzz_dir_view(), "artifacts"@), target@) + "/"@,
            ),
    {
        let manifest = self.manifest_path();
        let mut cmd = builder_invocation("run", manifest.as_str(), build, env);
        let ghost base = texts(cmd.args@);
        push_arg(&mut cmd.args, String::from_str("--bin"));
        push_arg(&mut cmd.args, String::from_str(target));
        let ghost with_bin = texts(cmd.args@);
        assert(with_bin =~= base + seq!["--bin"@, target@]);
        match &build.target_dir {
            Some(d) => {
                push_arg(&mut cmd.args, String::from_str("--target-dir"));
                push_arg(&mut cmd.args, d.clone());
            },
            None => {},
        }
        let ghost with_dir = texts(cmd.args@);
        assert(with_dir =~= with_bin + match build.target_dir {
            Some(d) => seq!["--target-dir"@, d@],
            None => Seq::<Seq<char>>::empty(),
        });
        push_arg(&mut cmd.args, String::from_str("--"));
        let artifacts = self.artifacts_for(target);
        push_arg(&mut cmd.args, String::from_str("-artifact_prefix=").concat(artifacts.as_str()));
        assert(texts(cmd.args@) =~= with_dir + seq![
            "--"@,
            "-artifact_prefix="@ + (join(join(self.fuzz_dir_view(), "artifacts"@), target@) + "/"@),
        ]);
        cmd
    }

    /// The run of fuzz target `target` on the single input `artifact` that
    /// writes the input's debug form into the file `debug_path`.
    pub fn debug_fmt_invocation(
        &self,
        build: &BuildOptions,
        target: &str,
        env: &Environment,
        debug_path: &str,
        artifact: &str,
    ) -> (r: Invocation)
        ensures
            r.program@ == "cargo"@,
            env_texts(r.env@) == builder_env(*build, *env) + seq![
                ("RUST_LIBFUZZER_DEBUG_PATH"@, debug_path@),
            ],
            texts(r.args@) == run_args(
                join(self.fuzz_dir_view(), "Cargo.toml"@),
                *build,
                target@,
                join(join(self.fuzz_dir_view(), "artifacts"@), target@) + "/"@,
            ) + seq![artifact@],
    {
        let mut cmd = self.cargo_run(build, target, env);
        push_arg(&mut cmd.args, String::from_str(artifact));
        let ghost before = env_texts(cmd.env@);
        cmd.env.push((String::from_str("RUST_LIBFUZZER_DEBUG_PATH"), String::from_str(debug_path)));
        assert(env_texts(cmd.env@) =~= before + seq![("RUST_LIBFUZZER_DEBUG_PATH"@, debug_path@)]);
        cmd
    }

    /// The invocation that fuzzes `run.target`: the `cargo run` of the target,
    /// then the pass-through arguments, `-fork=N` for more than one job, and
    /// the corpora last, where the fuzz engine looks for them.
    pub fn exec_fuzz(&self, run: &Run, env: &Environment) -> (r: Invocation)
        ensures
            r.program@ == "cargo"@,
            env_texts(r.env@) == builder_env(run.build, *env),
            texts(r.args@) == run_args(
                join(self.fuzz_dir_view(), "Cargo.toml"@),
                run.build,
                run.target@,
                join(join(self.fuzz_dir_view(), "artifacts"@), run.target@) + "/"@,
            ) + engine_args(*run, join(join(self.fuzz_dir_view(), "corpus"@), run.target@)),
    {
        let mut cmd = self.cargo_run(&run.build, run.target.as_str(), env);
        let ghost base = texts(cmd.args@);
        push_all(&mut cmd.args, &run.args);
        let ghost with_args = texts(cmd.args@);
        if run.jobs > 1 {
            let n = to_decimal(run.jobs as usize);
            push_arg(&mut cmd.args, String::from_str("-fork=").concat(n.as_str()));
        }
        let ghost with_fork = texts(cmd.args@);
        assert(with_fork =~= with_args + if run.jobs > 1 {
            seq!["-fork="@ + decimal_text(run.jobs as nat)]
        } else {
            Seq::<Seq<char>>::empty()
        });
        if run.corpus.len() > 0 {
            push_all(&mut cmd.args, &run.corpus);
        } else {
            push_arg(&mut cmd.args, self.corpus_for(run.target.as_str()));
        }
        assert(texts(cmd.args@) =~= base + engine_args(
            *run,
            join(join(self.fuzz_dir_view(), "corpus"@), run.target@),
        ));
        cmd
    }

    /// The invocation that minimizes the failing input `tmin.test_case`.
    pub fn exec_tmin(&self, tmin: &Tmin, env: &Environment) -> (r: Invocation)
        ensures
            r.program@ == "cargo"@,
            env_texts(r.env@) == builder_env(tmin.build, *env),
            texts(r.args@) == run_args(
                join(self.fuzz_dir_view(), "Cargo.toml"@),
                tmin.build,
                tmin.target@,
                join(join(self.fuzz_dir_view(), "artifacts"@), tmin.target@) + "/"@,
            ) + tmin_args(*tmin),
    {
        let mut cmd = self.cargo_run(&tmin.build, tmin.target.as_str(), env);
        let ghost base = texts(cmd.args@);
        push_arg(&mut cmd.args, String::from_str("-minimize_crash=1"));
        let runs = to_decimal(tmin.runs as usize);
        push_arg(&mut cmd.args, String::from_str("-runs=").concat(runs.as_str()));
        push_arg(&mut cmd.args, tmin.test_case.clone());
        push_all(&mut cmd.args, &tmin.args);
        assert(texts(cmd.args@) =~= base + tmin_args(*tmin));
        cmd
    }

    /// The corpus that `cmin` minimizes: the one given, else the target's own.
    pub fn cmin_corpus(&self, cmin: &Cmin) -> (r: String)
        ensures
            r@ == match cmin.corpus {
                Some(c) => c@,
                None => join(join(self.fuzz_dir_view(), "corpus"@), cmin.target@),
            },
    {
        match &cmin.corpus {
            Some(c) => c.clone(),
            None => self.corpus_for(cmin.target.as_str()),
        }
    }

    /// The invocation that merges the corpus `corpus` into `scratch/corpus`,
    /// keeping only inputs that add coverage. The scratch directory lies inside
    /// the fuzz directory, so that the minimized corpus can be renamed into
    /// place on the same file system.
    pub fn exec_cmin(&self, cmin: &Cmin, env: &Environment, scratch: &str, corpus: &str) -> (r: Invocation)
        requires
            has_prefix(scratch@, self.fuzz_dir_view() + "/"@),
        ensures
            r.program@ == "cargo"@,
            env_texts(r.env@) == builder_env(cmin.build, *env),
            texts(r.args@) == run_args(
                join(self.fuzz_dir_view(), "Cargo.toml"@),
                cmin.build,
                cmin.target@,
                join(join(self.fuzz_dir_view(), "artifacts"@), cmin.target@) + "/"@,
            ) + texts(cmin.args@) + seq!["-merge=1"@, join(scratch@, "corpus"@), corpus@],
    {
        let mut cmd = self.cargo_run(&cmin.build, cmin.target.as_str(), env);
        push_all(&mut cmd.args, &cmin.args);
        let ghost with_args = texts(cmd.args@);
        push_arg(&mut cmd.args, String::from_str("-merge=1"));
        push_arg(&mut cmd.args, join_path(scratch, "corpus"));
        push_arg(&mut cmd.args, String::from_str(corpus));
        assert(texts(cmd.args@) =~= with_args + seq!["-merge=1"@, join(scratch@, "corpus"@), corpus@]);
        cmd
    }
}

} // verus!
