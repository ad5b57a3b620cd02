//! The coverage pipeline: one run of the built target per corpus, then one
//! merge of the raw profiles.

use vstd::prelude::*;
use vstd::string::*;
use crate::commands::Coverage;
use crate::decimal::{decimal_text, to_decimal};
use crate::options::{opt_text, texts};
use crate::text::str_eq;
use crate::project::{join, join_path, FuzzProject};
use crate::translate::{env_texts, Invocation};

verus! {

/// Why coverage cannot be collected.
#[derive(Clone, Copy, Debug, PartialEq, Eq, Structural)]
pub enum CoverageError {
    /// The corpora hold no input file: the fuzzer has to run first.
    EmptyCorpus,
}

impl CoverageError {
    /// What the user is told.
    pub fn message(&self) -> (r: &'static str)
        ensures
            *self == CoverageError::EmptyCorpus ==> r@ == "The corpus does not contain program-input files. \
                 Coverage information requires existing input files. \
                 Try running the fuzzer first (`cargo fuzz run ...`) to generate a corpus, \
                 or provide a nonempty corpus directory."@,
    {
        match self {
            CoverageError::EmptyCorpus => "The corpus does not contain program-input files. \
                 Coverage information requires existing input files. \
                 Try running the fuzzer first (`cargo fuzz run ...`) to generate a corpus, \
                 or provide a nonempty corpus directory.",
        }
    }
}

/// The commands of a coverage collection, in the order they run.
pub struct CoveragePlan {
    /// One run of the built fuzz target per corpus.
    pub runs: Vec<Invocation>,
    /// The merge of the raw profiles into one.
    pub merge: Invocation,
}

/// The directory of the coverage build's binaries for `profile`.
pub open spec fn binary_path(target_dir: Seq<char>, triple: Seq<char>, dev: bool, target: Seq<char>) -> Seq<char> {
    join(join(join(target_dir, triple), if dev { "debug"@ } else { "release"@ }), target)
}

/// The raw profile file of the corpus with index `index` and name
/// `corpus_name`; the index keeps corpora of the same name apart.
pub open spec fn profile_file(raw_dir: Seq<char>, index: nat, corpus_name: Seq<char>) -> Seq<char> {
    join(raw_dir, "default-"@ + decimal_text(index) + "-"@ + corpus_name + ".profraw"@)
}

/// `s` without the separators at its end.
pub open spec fn trim_slashes(s: Seq<char>) -> Seq<char>
    decreases s.len(),
{
    if s.len() > 0 && s.last() == '/' {
        trim_slashes(s.drop_last())
    } else {
        s
    }
}

/// What follows the last separator of `s` (all of `s` when it has none).
pub open spec fn last_component(s: Seq<char>) -> Seq<char>
    decreases s.len(),
{
    if s.len() == 0 || s.last() == '/' {
        Seq::empty()
    } else {
        last_component(s.drop_last()).push(s.last())
    }
}

/// The name of a corpus directory: the last component of its path, trailing
/// separators aside; none when that is empty, `.` or `..`.
pub open spec fn corpus_name_spec(path: Seq<char>) -> Option<Seq<char>> {
    let n = last_component(trim_slashes(path));
    if n.len() == 0 || n == "."@ || n == ".."@ {
        None
    } else {
        Some(n)
    }
}

/// The name of the corpus directory `path`: the last component of the path.
pub fn corpus_name(path: &str) -> (r: Option<String>)
    ensures
        opt_text(r) == corpus_name_spec(path@),
{
    let n = path.unicode_len();
    let mut end: usize = n;
    assert(path@.subrange(0, n as int) =~= path@);
    while end > 0 && path.get_char(end - 1) == '/'
        invariant
            n == path@.len(),
            end <= n,
            trim_slashes(path@) == trim_slashes(path@.subrange(0, end as int)),
        decreases end,
    {
        assert(path@.subrange(0, end as int).drop_last() =~= path@.subrange(0, end - 1));
        end -= 1;
    }
    let ghost t = path@.subrange(0, end as int);
    assert(trim_slashes(t) == t);
    let mut start: usize = end;
    while start > 0 && path.get_char(start - 1) != '/'
        invariant
            end <= n,
            n == path@.len(),
            start <= end,
            t == path@.subrange(0, end as int),
            last_component(t) == last_component(path@.subrange(0, start as int)) + path@.subrange(
                start as int,
                end as int,
            ),
        decreases start,
    {
        let ghost pre = path@.subrange(0, start as int);
        assert(pre.drop_last() =~= path@.subrange(0, start - 1));
        assert(path@.subrange(start - 1, end as int) =~= seq![pre.last()] + path@.subrange(
            start as int,
            end as int,
        ));
        assert(last_component(pre) == last_component(pre.drop_last()).push(pre.last()));
        assert(last_component(pre.drop_last()).push(pre.last()) + path@.subrange(start as int, end as int)
            =~= last_component(pre.drop_last()) + path@.subrange(start - 1, end as int));
        start -= 1;
    }
    assert(last_component(path@.subrange(0, start as int)) =~= Seq::<char>::empty());
    assert(Seq::<char>::empty() + path@.subrange(start as int, end as int) =~= path@.subrange(
        start as int,
        end as int,
    ));
    let name = path.substring_char(start, end);
    if name.unicode_len() == 0 || str_eq(name, ".") || str_eq(name, "..") {
        None
    } else {
        Some(String::from_str(name))
    }
}

/// The tool directory of the toolchain in `sysroot` for the host `host`.
pub open spec fn rustlib_spec(sysroot: Seq<char>, host: Seq<char>) -> Seq<char> {
    join(join(join(join(sysroot, "lib"@), "rustlib"@), host), "bin"@)
}

/// The tool directory of the toolchain in `sysroot` for the host `host`.
pub fn rustlib(sysroot: &str, host: &str) -> (r: String)
    ensures
        r@ == rustlib_spec(sysroot@, host@),
{
    let a = join_path(sysroot, "lib");
    let b = join_path(a.as_str(), "rustlib");
    let c = join_path(b.as_str(), host);
    join_path(c.as_str(), "bin")
}

/// Refuses to collect coverage from corpora that hold no input file.
pub fn check_corpus(input_files: usize) -> (r: Result<(), CoverageError>)
    ensures
        r is Err <==> input_files == 0,
{
    if input_files == 0 {
        Err(CoverageError::EmptyCorpus)
    } else {
        Ok(())
    }
}

/// The invocation of the merge tool `tool` over the raw profiles in `raw_dir`.
pub fn merge_invocation(tool: &str, raw_dir: &str, out_file: &str) -> (r: Invocation)
    ensures
        r.program@ == tool@,
        texts(r.args@) == seq!["merge"@, "-sparse"@, raw_dir@, "-o"@, out_file@],
        r.env@.len() == 0,
{
    let mut args: Vec<String> = Vec::new();
    args.push(String::from_str("merge"));
    args.push(String::from_str("-sparse"));
    args.push(String::from_str(raw_dir));
    args.push(String::from_str("-o"));
    args.push(String::from_str(out_file));
    assert(texts(args@) =~= seq!["merge"@, "-sparse"@, raw_dir@, "-o"@, out_file@]);
    Invocation { program: String::from_str(tool), args, env: Vec::new() }
}

/// The run of the coverage binary `binary` over one corpus: it merges the
/// corpus into the scratch directory `scratch` and writes its raw profile
/// into a file named after the corpus index and name.
pub fn corpus_run(
    binary: &str,
    raw_dir: &str,
    corpus: &str,
    index: usize,
    corpus_name: &str,
    scratch: &str,
    args: &Vec<String>,
) -> (r: Invocation)
    ensures
        r.program@ == binary@,
        texts(r.args@) == seq!["-merge=1"@, scratch@, corpus@] + texts(args@),
        env_texts(r.env@) == seq![("LLVM_PROFILE_FILE"@, profile_file(raw_dir@, index as nat, corpus_name@))],
{
    let mut a: Vec<String> = Vec::new();
    a.push(String::from_str("-merge=1"));
    a.push(String::from_str(scratch));
    a.push(String::from_str(corpus));
    let mut i: usize = 0;
    assert(texts(a@) =~= seq!["-merge=1"@, scratch@, corpus@] + texts(args@.subrange(0, 0)));
    while i < args.len()
        invariant
            i <= args@.len(),
            texts(a@) == seq!["-merge=1"@, scratch@, corpus@] + texts(args@.subrange(0, i as int)),
        decreases args@.len() - i,
    {
        let ghost before = a@;
        a.push(args[i].clone());
        assert(texts(a@) =~= texts(before) + seq![args@[i as int]@]);
        assert(texts(args@.subrange(0, i + 1)) =~= texts(args@.subrange(0, i as int)) + seq![
            args@[i as int]@,
        ]);
        i += 1;
    }
    assert(args@.subrange(0, i as int) =~= args@);
    let number = to_decimal(index);
    let file = String::from_str("default-").concat(number.as_str()).concat("-").concat(corpus_name).concat(
        ".profraw",
    );
    let mut env: Vec<(String, String)> = Vec::new();
    env.push((String::from_str("LLVM_PROFILE_FILE"), join_path(raw_dir, file.as_str())));
    assert(env_texts(env@) =~= seq![("LLVM_PROFILE_FILE"@, profile_file(raw_dir@, index as nat, corpus_name@))]);
    Invocation { program: String::from_str(binary), args: a, env }
}

impl FuzzProject {
    /// The commands that collect coverage for `coverage.target` from the
    /// corpora `corpora` (named `corpus_names`), which hold `input_files`
    /// input files in all. With no input file nothing is run and the merge
    /// tool is not invoked. `scratches` holds one empty directory per corpus
    /// for the merge output of its run, `tool` is the profile merge tool.
    pub fn exec_coverage(
        &self,
        coverage: &Coverage,
        corpora: &Vec<String>,
        corpus_names: &Vec<String>,
        input_files: usize,
        current_dir: &str,
        host: &str,
        scratches: &Vec<String>,
        tool: &str,
    ) -> (r: Result<CoveragePlan, CoverageError>)
        requires
            coverage.build.coverage,
            corpus_names@.len() == corpora@.len(),
            scratches@.len() == corpora@.len(),
        ensures
            r is Err <==> input_files == 0,
            r matches Ok(plan) ==> {
                let raw = join(join(join(self.fuzz_dir_view(), "coverage"@), coverage.target@), "raw"@);
                let out = join(
                    join(join(self.fuzz_dir_view(), "coverage"@), coverage.target@),
                    "coverage.profdata"@,
                );
                let tdir = match coverage.build.target_dir {
                    Some(d) => d@,
                    None => join(join(join(current_dir@, "target"@), host@), "coverage"@),
                };
                &&& plan.runs@.len() == corpora@.len()
                &&& forall|i: int|
                    0 <= i < corpora@.len() ==> {
                        &&& (#[trigger] plan.runs@[i]).program@ == binary_path(
                            tdir,
                            coverage.build.triple@,
                            coverage.build.dev,
                            coverage.target@,
                        )
                        &&& texts(plan.runs@[i].args@) == seq![
                            "-merge=1"@,
                            scratches@[i]@,
                            corpora@[i]@,
                        ]
                            + texts(coverage.args@)
                        &&& env_texts(plan.runs@[i].env@) == seq![
                            ("LLVM_PROFILE_FILE"@, profile_file(raw, i as nat, corpus_names@[i]@)),
                        ]
                    }
                &&& plan.merge.program@ == tool@
                &&& texts(plan.merge.args@) == seq!["merge"@, "-sparse"@, raw, "-o"@, out]
            },
    {
        check_corpus(input_files)?;
        let (raw, out) = self.coverage_for(coverage.target.as_str());
        let tdir = match self.target_dir(&coverage.build, current_dir, host) {
            Some(d) => d,
            None => String::new(),
        };
        let profile = if coverage.build.dev {
            "debug"
        } else {
            "release"
        };
        let a = join_path(tdir.as_str(), coverage.build.triple.as_str());
        let b = join_path(a.as_str(), profile);
        let binary = join_path(b.as_str(), coverage.target.as_str());
        let mut runs: Vec<Invocation> = Vec::new();
        let mut i: usize = 0;
        while i < corpora.len()
            invariant
                i <= corpora@.len(),
                corpus_names@.len() == corpora@.len(),
                scratches@.len() == corpora@.len(),
                runs@.len() == i,
                forall|j: int|
                    0 <= j < i ==> {
                        &&& (#[trigger] runs@[j]).program@ == binary@
                        &&& texts(runs@[j].args@) == seq!["-merge=1"@, scratches@[j]@, corpora@[j]@]
                            + texts(coverage.args@)
                        &&& env_texts(runs@[j].env@) == seq![
                            ("LLVM_PROFILE_FILE"@, profile_file(raw@, j as nat, corpus_names@[j]@)),
                        ]
                    },
            decreases corpora@.len() - i,
        {
            let run = corpus_run(
                binary.as_str(),
                raw.as_str(),
                corpora[i].as_str(),
                i,
                corpus_names[i].as_str(),
                scratches[i].as_str(),
                &coverage.args,
            );
            runs.push(run);
            i += 1;
        }
        let merge = merge_invocation(tool, raw.as_str(), out.as_str());
        Ok(CoveragePlan { runs, merge })
    }
}

} // verus!
