//! The background pipeline's state machine.
//!
//! A job's pipeline runs once, strictly in order: pull recipes, commit
//! `BuildingMatrix`, build the co-occurrence matrix, commit
//! `EmbeddingRelation`, commit `Complete`.  Each state names the one
//! action the pipeline performs next; the outcome of that action (an
//! engine call or a status write) is the event that drives the machine
//! on.  A failure halts the pipeline for good: the job's status then
//! remains at whatever stage was last committed — there is no retry and
//! no terminal failure stage.

use vstd::prelude::*;

use crate::stage::{stage_index, stage_le, Stage};

verus! {

/// What the pipeline does next: call the analysis engine's recipe
/// retrieval, call its matrix construction, or commit a stage to the
/// job store.
#[derive(Clone, Copy, Debug, PartialEq, Eq, Structural)]
pub enum Action {
    PullRecipes,
    BuildMatrix,
    WriteStatus(Stage),
}

/// The outcome of the pipeline's latest action.
#[derive(Clone, Copy, Debug, PartialEq, Eq, Structural)]
pub enum Event {
    Succeeded,
    Failed,
}

/// Where a job's pipeline stands.  The `Await` states name the action
/// the pipeline performs next; `Done` means every stage was committed;
/// `Halted` carries the stage that was last committed when a step
/// failed.
#[derive(Clone, Copy, Debug, PartialEq, Eq, Structural)]
pub enum PipelineState {
    AwaitRecipes,
    AwaitBuildingWrite,
    AwaitMatrix,
    AwaitEmbeddingWrite,
    AwaitCompleteWrite,
    Done,
    Halted(Stage),
}

/// The stage last committed to the store for a job whose pipeline is in
/// state `s`.  Jobs are created at `Selecting`, so that is the stage
/// committed before any write.
pub open spec fn committed(s: PipelineState) -> Stage {
    match s {
        PipelineState::AwaitRecipes => Stage::Selecting,
        PipelineState::AwaitBuildingWrite => Stage::Selecting,
        PipelineState::AwaitMatrix => Stage::BuildingMatrix,
        PipelineState::AwaitEmbeddingWrite => Stage::BuildingMatrix,
        PipelineState::AwaitCompleteWrite => Stage::EmbeddingRelation,
        PipelineState::Done => Stage::Complete,
        PipelineState::Halted(st) => st,
    }
}

/// The action a pipeline in state `s` performs next; `None` exactly in
/// the terminal states.
pub open spec fn spec_next_action(s: PipelineState) -> Option<Action> {
    match s {
        PipelineState::AwaitRecipes => Some(Action::PullRecipes),
        PipelineState::AwaitBuildingWrite => Some(Action::WriteStatus(Stage::BuildingMatrix)),
        PipelineState::AwaitMatrix => Some(Action::BuildMatrix),
        PipelineState::AwaitEmbeddingWrite => Some(Action::WriteStatus(Stage::EmbeddingRelation)),
        PipelineState::AwaitCompleteWrite => Some(Action::WriteStatus(Stage::Complete)),
        PipelineState::Done => None,
        PipelineState::Halted(st) => None,
    }
}

/// The state a pipeline in state `s` moves to on event `e`: forward to
/// the next action on success, halted at the last committed stage on
/// failure, and unchanged in the terminal states.
pub open spec fn spec_step(s: PipelineState, e: Event) -> PipelineState {
    match s {
        PipelineState::Done => PipelineState::Done,
        PipelineState::Halted(st) => PipelineState::Halted(st),
        _ => match e {
            Event::Failed => PipelineState::Halted(committed(s)),
            Event::Succeeded => match s {
                PipelineState::AwaitRecipes => PipelineState::AwaitBuildingWrite,
                PipelineState::AwaitBuildingWrite => PipelineState::AwaitMatrix,
                PipelineState::AwaitMatrix => PipelineState::AwaitEmbeddingWrite,
                PipelineState::AwaitEmbeddingWrite => PipelineState::AwaitCompleteWrite,
                PipelineState::AwaitCompleteWrite => PipelineState::Done,
                _ => s,
            },
        },
    }
}

/// The state a pipeline in state `s` reaches after the events of `es`,
/// oldest first.
pub open spec fn run(s: PipelineState, es: Seq<Event>) -> PipelineState
    decreases es.len(),
{
    if es.len() == 0 {
        s
    } else {
        run(spec_step(s, es[0]), es.skip(1))
    }
}

/// The state every job's pipeline starts in.
pub fn initial_state() -> (s: PipelineState)
    ensures
        s == PipelineState::AwaitRecipes,
        committed(s) == Stage::Selecting,
{
    PipelineState::AwaitRecipes
}

/// The action a pipeline in state `s` performs next; `None` exactly in
/// the terminal states `Done` and `Halted`.
pub fn next_action(s: PipelineState) -> (r: Option<Action>)
    ensures
        r == spec_next_action(s),
        r is None <==> (s is Done || s is Halted),
{
    match s {
        PipelineState::AwaitRecipes => Some(Action::PullRecipes),
        PipelineState::AwaitBuildingWrite => Some(Action::WriteStatus(Stage::BuildingMatrix)),
        PipelineState::AwaitMatrix => Some(Action::BuildMatrix),
        PipelineState::AwaitEmbeddingWrite => Some(Action::WriteStatus(Stage::EmbeddingRelation)),
        PipelineState::AwaitCompleteWrite => Some(Action::WriteStatus(Stage::Complete)),
        PipelineState::Done => None,
        PipelineState::Halted(_) => None,
    }
}

/// Moves a pipeline in state `s` on by the outcome `e` of its latest
/// action.
pub fn step(s: PipelineState, e: Event) -> (r: PipelineState)
    ensures
        r == spec_step(s, e),
{
    match s {
        PipelineState::Done => PipelineState::Done,
        PipelineState::Halted(st) => PipelineState::Halted(st),
        _ => match e {
            Event::Failed => PipelineState::Halted(committed_stage(s)),
            Event::Succeeded => match s {
                PipelineState::AwaitRecipes => PipelineState::AwaitBuildingWrite,
                PipelineState::AwaitBuildingWrite => PipelineState::AwaitMatrix,
                PipelineState::AwaitMatrix => PipelineState::AwaitEmbeddingWrite,
                PipelineState::AwaitEmbeddingWrite => PipelineState::AwaitCompleteWrite,
                PipelineState::AwaitCompleteWrite => PipelineState::Done,
                _ => s,
            },
        },
    }
}

/// The stage last committed for a job whose pipeline is in state `s`.
pub fn committed_stage(s: PipelineState) -> (r: Stage)
    ensures
        r == committed(s),
{
    match s {
        PipelineState::AwaitRecipes => Stage::Selecting,
        PipelineState::AwaitBuildingWrite => Stage::Selecting,
        PipelineState::AwaitMatrix => Stage::BuildingMatrix,
        PipelineState::AwaitEmbeddingWrite => Stage::BuildingMatrix,
        PipelineState::AwaitCompleteWrite => Stage::EmbeddingRelation,
        PipelineState::Done => Stage::Complete,
        PipelineState::Halted(st) => st,
    }
}

/// One step never moves the committed stage backward and never skips a
/// stage: whatever the event, the stage after the step is the stage
/// before it or its immediate successor in the required order.
pub proof fn lemma_step_monotonic(s: PipelineState, e: Event)
    ensures
        stage_le(committed(s), committed(spec_step(s, e))),
        stage_index(committed(spec_step(s, e))) <= stage_index(committed(s)) + 1,
{
}

/// Along any run of events, the committed stage never moves backward.
pub proof fn lemma_run_monotonic(s: PipelineState, es: Seq<Event>)
    ensures
        stage_le(committed(s), committed(run(s, es))),
    decreases es.len(),
{
    if es.len() > 0 {
        lemma_step_monotonic(s, es[0]);
        lemma_run_monotonic(spec_step(s, es[0]), es.skip(1));
    }
}

/// Running the events of `a` and then those of `b` is running the
/// events of `a + b`.
pub proof fn lemma_run_append(s: PipelineState, a: Seq<Event>, b: Seq<Event>)
    ensures
        run(s, a + b) == run(run(s, a), b),
    decreases a.len(),
{
    if a.len() == 0 {
        assert(a + b =~= b);
    } else {
        assert((a + b).skip(1) =~= a.skip(1) + b);
        lemma_run_append(spec_step(s, a[0]), a.skip(1), b);
    }
}

/// The stages observed of one job over time form a non-decreasing
/// sequence: of any two observations of a pipeline driven by the events
/// of `es`, the later one (after `j` events) is no earlier in the
/// required order than the earlier one (after `i` events).
pub proof fn lemma_observations_monotonic(s: PipelineState, es: Seq<Event>, i: int, j: int)
    requires
        0 <= i <= j <= es.len(),
    ensures
        stage_le(committed(run(s, es.take(i))), committed(run(s, es.take(j)))),
{
    assert(es.take(j) =~= es.take(i) + es.subrange(i, j));
    lemma_run_append(s, es.take(i), es.subrange(i, j));
    lemma_run_monotonic(run(s, es.take(i)), es.subrange(i, j));
}

/// A halted pipeline stays halted under every further event, and its
/// committed stage never changes again.
pub proof fn lemma_halted_permanent(st: Stage, es: Seq<Event>)
    ensures
        run(PipelineState::Halted(st), es) == PipelineState::Halted(st),
        committed(run(PipelineState::Halted(st), es)) == st,
    decreases es.len(),
{
    if es.len() > 0 {
        lemma_halted_permanent(st, es.skip(1));
    }
}

/// `Complete` is terminal: a finished pipeline stays finished under
/// every further event, with its committed stage at `Complete`.
pub proof fn lemma_done_permanent(es: Seq<Event>)
    ensures
        run(PipelineState::Done, es) == PipelineState::Done,
        committed(run(PipelineState::Done, es)) == Stage::Complete,
    decreases es.len(),
{
    if es.len() > 0 {
        lemma_done_permanent(es.skip(1));
    }
}

/// If matrix construction fails, the pipeline halts with the job's
/// status at `BuildingMatrix`, and under any further events the status
/// neither advances nor reverts: every later query returns the same
/// value.
pub proof fn lemma_matrix_failure_keeps_building(es: Seq<Event>)
    ensures
        spec_step(PipelineState::AwaitMatrix, Event::Failed) == PipelineState::Halted(
            Stage::BuildingMatrix,
        ),
        committed(run(spec_step(PipelineState::AwaitMatrix, Event::Failed), es))
            == Stage::BuildingMatrix,
{
    lemma_halted_permanent(Stage::BuildingMatrix, es);
}

} // verus!
