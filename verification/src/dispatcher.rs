//! The job dispatcher: creates a job record and drives its background
//! pipeline, committing each stage to the store as it is reached.
//!
//! Submission returns as soon as the job record exists; the pipeline
//! then runs independently.  The engine calls themselves (recipe
//! retrieval and matrix construction) are the analysis engine's work;
//! the dispatcher takes only their outcomes and decides from them, so
//! everything it commits to the store is decided here.

use vstd::prelude::*;

use crate::pipeline::{committed, initial_state, step, Event, PipelineState};
use crate::stage::Stage;
use crate::store::JobStore;

verus! {

/// The immutable input to a job, supplied by the caller at submission.
#[derive(Debug)]
pub struct RecipeFilter {
    /// Optional recipe category selecting which recipes are pulled.
    pub tag: Option<String>,
    /// Ingredients handed to the matrix-construction step.
    pub ingredients: Vec<String>,
    /// Name of the embedding strategy; recorded, not dispatched on.
    pub algorithm: String,
}

/// A submitted job: the id the store assigned, where its pipeline
/// stands, and the filter the pipeline is bound to.
#[derive(Debug)]
pub struct PendingJob {
    pub id: i32,
    pub state: PipelineState,
    pub filter: RecipeFilter,
}

/// Accepts a submission: creates the job record, with a fresh id and
/// initial status `Selecting`, and hands back the unit of background
/// work bound to that id and filter.  No other job's record changes,
/// and the submitter need not wait for the pipeline.
pub fn submit(store: &mut JobStore, filter: RecipeFilter) -> (job: PendingJob)
    requires
        old(store)@.len() < i32::MAX,
    ensures
        job.id as int == old(store)@.len() + 1,
        !old(store).issued(job.id as int),
        final(store).issued(job.id as int),
        final(store)@ =~= old(store)@.push(Stage::Selecting),
        final(store).status_of(job.id as int) == Stage::Selecting,
        forall|j: int|
            old(store).issued(j) ==> final(store).issued(j) && final(store).status_of(j) == old(
                store,
            ).status_of(j),
        job.state == PipelineState::AwaitRecipes,
        job.filter == filter,
{
    let id = store.create_job();
    PendingJob { id, state: initial_state(), filter }
}

/// Runs one job's pipeline to its end against the store, strictly in
/// order: pull recipes, commit `BuildingMatrix`, build the matrix,
/// commit `EmbeddingRelation`, commit `Complete`.  `pull_ok` and
/// `matrix_ok` are the outcomes of the two engine calls; a failure
/// halts the pipeline, and the job's status stays at the stage last
/// committed.  Whatever happens, the store ends holding exactly the
/// returned state's committed stage for this job, and no other job's
/// record changes.
pub fn run_job(store: &mut JobStore, job: &PendingJob, pull_ok: bool, matrix_ok: bool) -> (r:
    PipelineState)
    requires
        old(store).issued(job.id as int),
        old(store).status_of(job.id as int) == Stage::Selecting,
        job.state == PipelineState::AwaitRecipes,
    ensures
        final(store)@.len() == old(store)@.len(),
        forall|j: int|
            old(store).issued(j) && j != job.id as int ==> final(store).status_of(j) == old(
                store,
            ).status_of(j),
        final(store).status_of(job.id as int) == committed(r),
        r is Done || r is Halted,
        !pull_ok ==> r == PipelineState::Halted(Stage::Selecting),
        pull_ok && !matrix_ok ==> r == PipelineState::Halted(Stage::BuildingMatrix),
        pull_ok && matrix_ok ==> r == PipelineState::Done && final(store).status_of(
            job.id as int,
        ) == Stage::Complete,
{
    let id = job.id;

    // Recipe retrieval: the engine's outcome is the event.
    let mut state = step(job.state, if pull_ok { Event::Succeeded } else { Event::Failed });
    if !pull_ok {
        return state;
    }

    // Commit BuildingMatrix before matrix construction begins.
    state = match store.set_status(id, Stage::BuildingMatrix) {
        Ok(u) => step(state, Event::Succeeded),
        Err(e) => {
            return step(state, Event::Failed);
        },
    };

    // Matrix construction: the engine's outcome is the event.
    state = step(state, if matrix_ok { Event::Succeeded } else { Event::Failed });
    if !matrix_ok {
        return state;
    }

    // Commit EmbeddingRelation once the matrix is built.
    state = match store.set_status(id, Stage::EmbeddingRelation) {
        Ok(u) => step(state, Event::Succeeded),
        Err(e) => {
            return step(state, Event::Failed);
        },
    };

    // Commit Complete: the pipeline never re-enters a finished job.
    state = match store.set_status(id, Stage::Complete) {
        Ok(u) => step(state, Event::Succeeded),
        Err(e) => {
            return step(state, Event::Failed);
        },
    };

    state
}

} // verus!
