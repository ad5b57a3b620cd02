//! The decisions of the run pipeline: build, run the fuzz engine, and triage
//! its failures; and the corpus swap after a corpus minimization.

use vstd::prelude::*;
use vstd::string::*;
use crate::project::{join, join_path};
use crate::text::has_prefix;
use crate::translate::env_texts;

verus! {

/// Which command the pipeline serves.
#[derive(Clone, Copy, Debug, PartialEq, Eq, Structural)]
pub enum Pipeline {
    /// Fuzzing a target.
    Fuzz,
    /// Minimizing one failing input.
    MinimizeInput,
    /// Minimizing a corpus.
    MinimizeCorpus,
}

/// Where a pipeline stands.
#[derive(Clone, Copy, Debug, PartialEq, Eq, Structural)]
pub enum Stage {
    Idle,
    Building,
    Running,
    /// Acting on what the fuzz engine did.
    Concluding,
    Succeeded,
    Failed,
}

/// What the outside work reported.
#[derive(Clone, Copy, Debug, PartialEq, Eq, Structural)]
pub enum Event {
    /// The command was started.
    Started,
    /// The build ended; `true` when it succeeded.
    BuildFinished(bool),
    /// The fuzz engine exited; `true` when it exited with success.
    EngineFinished(bool),
    /// The action of the concluding stage is done.
    Concluded,
}

/// What to do next.
#[derive(Clone, Copy, Debug, PartialEq, Eq, Structural)]
pub enum Action {
    Build,
    RunEngine,
    /// List the artifacts that appeared since the engine started, and report each.
    ReportNewArtifacts,
    /// Report the newest artifact, the minimized input.
    ReportMinimized,
    /// Explain that minimization failing often means the input is already minimal.
    ExplainMinimizeFailure,
    /// Put the minimized corpus in place of the old one.
    SwapCorpus,
    /// Leave the corpus as it is and say that minimizing it failed.
    KeepCorpus,
    FinishWithSuccess,
    FinishWithFailure,
    Nothing,
}

/// The transition table. Every pipeline builds first, and a failed build ends
/// it before the engine runs. When fuzzing, a failing engine is triaged and then
/// reported as a failure. When minimizing an input, a failing engine is
/// explained and is a failure; a succeeding one has its result reported. When
/// minimizing a corpus, the corpus is swapped on success and kept on failure,
/// and the command succeeds either way.
pub open spec fn transition(kind: Pipeline, stage: Stage, event: Event) -> (Stage, Action) {
    match (stage, event) {
        (Stage::Idle, Event::Started) => (Stage::Building, Action::Build),
        (Stage::Building, Event::BuildFinished(true)) => (Stage::Running, Action::RunEngine),
        (Stage::Building, Event::BuildFinished(false)) => (Stage::Failed, Action::FinishWithFailure),
        (Stage::Running, Event::EngineFinished(ok)) => match kind {
            Pipeline::Fuzz => if ok {
                (Stage::Succeeded, Action::FinishWithSuccess)
            } else {
                (Stage::Concluding, Action::ReportNewArtifacts)
            },
            Pipeline::MinimizeInput => if ok {
                (Stage::Concluding, Action::ReportMinimized)
            } else {
                (Stage::Failed, Action::ExplainMinimizeFailure)
            },
            Pipeline::MinimizeCorpus => if ok {
                (Stage::Concluding, Action::SwapCorpus)
            } else {
                (Stage::Concluding, Action::KeepCorpus)
            },
        },
        (Stage::Concluding, Event::Concluded) => match kind {
            Pipeline::Fuzz => (Stage::Failed, Action::FinishWithFailure),
            _ => (Stage::Succeeded, Action::FinishWithSuccess),
        },
        _ => (stage, Action::Nothing),
    }
}

/// The next stage and action of a pipeline.
pub fn step(kind: Pipeline, stage: Stage, event: Event) -> (r: (Stage, Action))
    ensures
        r == transition(kind, stage, event),
{
    match (stage, event) {
        (Stage::Idle, Event::Started) => (Stage::Building, Action::Build),
        (Stage::Building, Event::BuildFinished(ok)) => if ok {
            (Stage::Running, Action::RunEngine)
        } else {
            (Stage::Failed, Action::FinishWithFailure)
        },
        (Stage::Running, Event::EngineFinished(ok)) => match kind {
            Pipeline::Fuzz => if ok {
                (Stage::Succeeded, Action::FinishWithSuccess)
            } else {
                (Stage::Concluding, Action::ReportNewArtifacts)
            },
            Pipeline::MinimizeInput => if ok {
                (Stage::Concluding, Action::ReportMinimized)
            } else {
                (Stage::Failed, Action::ExplainMinimizeFailure)
            },
            Pipeline::MinimizeCorpus => if ok {
                (Stage::Concluding, Action::SwapCorpus)
            } else {
                (Stage::Concluding, Action::KeepCorpus)
            },
        },
        (Stage::Concluding, Event::Concluded) => match kind {
            Pipeline::Fuzz => (Stage::Failed, Action::FinishWithFailure),
            _ => (Stage::Succeeded, Action::FinishWithSuccess),
        },
        _ => (stage, Action::Nothing),
    }
}

/// The engine runs only after a successful build, a finished pipeline does
/// nothing more, and the corpus is swapped only after the engine succeeded.
pub proof fn lemma_engine_only_after_build(kind: Pipeline, stage: Stage, event: Event)
    ensures
        transition(kind, stage, event).1 == Action::RunEngine ==> stage == Stage::Building && event
            == Event::BuildFinished(true),
        (stage == Stage::Succeeded || stage == Stage::Failed) ==> transition(kind, stage, event) == (
            stage,
            Action::Nothing,
        ),
        transition(kind, stage, event).1 == Action::SwapCorpus ==> event == Event::EngineFinished(
            true,
        ),
        transition(kind, stage, event).1 == Action::ReportNewArtifacts ==> event == Event::EngineFinished(
            false,
        ),
{
}

/// What the coverage pipeline does next.
#[derive(Clone, Copy, Debug, PartialEq, Eq, Structural)]
pub enum CoverageAction {
    /// Run the coverage binary over the corpus with this index.
    RunCorpus(usize),
    /// Merge the raw profiles.
    Merge,
    /// Stop: a run failed, and no merge follows.
    Fail,
}

/// The next step of the coverage pipeline, after `done` of `total` corpus runs,
/// the last of which ended with `last_ok`: a failed run stops everything, the
/// corpora run in order, and the merge comes after all of them.
pub fn coverage_step(done: usize, total: usize, last_ok: bool) -> (r: CoverageAction)
    ensures
        !last_ok ==> r == CoverageAction::Fail,
        last_ok && done < total ==> r == CoverageAction::RunCorpus(done),
        last_ok && done >= total ==> r == CoverageAction::Merge,
{
    if !last_ok {
        CoverageAction::Fail
    } else if done < total {
        CoverageAction::RunCorpus(done)
    } else {
        CoverageAction::Merge
    }
}

/// The renames that replace the corpus `corpus` with the minimized one in
/// `scratch/corpus`: first the corpus moves to `scratch/old`, then the
/// minimized corpus takes its place.
pub open spec fn swap_renames(corpus: Seq<char>, scratch: Seq<char>) -> Seq<(Seq<char>, Seq<char>)> {
    seq![(corpus, join(scratch, "old"@)), (join(scratch, "corpus"@), corpus)]
}

/// The renames after a corpus minimization: `swap_renames` on success; on
/// failure none, and the corpus stays as it is.
pub fn corpus_swap(success: bool, corpus: &str, scratch: &str) -> (r: Vec<(String, String)>)
    ensures
        env_texts(r@) == if success {
            swap_renames(corpus@, scratch@)
        } else {
            Seq::empty()
        },
{
    let mut r: Vec<(String, String)> = Vec::new();
    if success {
        r.push((String::from_str(corpus), join_path(scratch, "old")));
        r.push((join_path(scratch, "corpus"), String::from_str(corpus)));
    }
    assert(env_texts(r@) =~= if success {
        swap_renames(corpus@, scratch@)
    } else {
        Seq::<(Seq<char>, Seq<char>)>::empty()
    });
    r
}

/// After a successful merge, the corpus directory is replaced by exactly the
/// directory that the merge wrote (`scratch/corpus`, the destination that
/// `exec_cmin` hands the engine), and the old corpus is kept in the scratch
/// directory, inside the fuzz directory `fuzz_dir`.
pub proof fn lemma_cmin_replaces_corpus(fuzz_dir: Seq<char>, scratch: Seq<char>, corpus: Seq<char>)
    requires
        has_prefix(scratch, fuzz_dir + "/"@),
    ensures
        swap_renames(corpus, scratch).len() == 2,
        swap_renames(corpus, scratch)[1] == (join(scratch, "corpus"@), corpus),
        swap_renames(corpus, scratch)[0].0 == corpus,
        has_prefix(swap_renames(corpus, scratch)[0].1, fuzz_dir + "/"@),
{
    let old = join(scratch, "old"@);
    let p = fuzz_dir + "/"@;
    assert(old.subrange(0, p.len() as int) =~= scratch.subrange(0, p.len() as int));
}

} // verus!
