use recipe_api::pipeline::{committed_stage, initial_state, next_action, step, Action, Event, PipelineState};
use recipe_api::stage::Stage;

#[test]
fn the_success_path_visits_every_stage_in_order() {
    let mut state = initial_state();
    assert_eq!(state, PipelineState::AwaitRecipes);
    assert_eq!(committed_stage(state), Stage::Selecting);

    assert_eq!(next_action(state), Some(Action::PullRecipes));
    state = step(state, Event::Succeeded);
    assert_eq!(committed_stage(state), Stage::Selecting);

    assert_eq!(
        next_action(state),
        Some(Action::WriteStatus(Stage::BuildingMatrix))
    );
    state = step(state, Event::Succeeded);
    assert_eq!(committed_stage(state), Stage::BuildingMatrix);

    assert_eq!(next_action(state), Some(Action::BuildMatrix));
    state = step(state, Event::Succeeded);
    assert_eq!(committed_stage(state), Stage::BuildingMatrix);

    assert_eq!(
        next_action(state),
        Some(Action::WriteStatus(Stage::EmbeddingRelation))
    );
    state = step(state, Event::Succeeded);
    assert_eq!(committed_stage(state), Stage::EmbeddingRelation);

    assert_eq!(
        next_action(state),
        Some(Action::WriteStatus(Stage::Complete))
    );
    state = step(state, Event::Succeeded);
    assert_eq!(state, PipelineState::Done);
    assert_eq!(committed_stage(state), Stage::Complete);
    assert_eq!(next_action(state), None);
}

#[test]
fn committed_stages_never_revert_or_skip_under_any_events() {
    // Drive the machine under every combination of five outcomes and
    // check each observed stage against the one before it.
    for mask in 0u32..32 {
        let mut state = initial_state();
        let mut last = committed_stage(state);
        for bit in 0..5 {
            let event = if mask & (1 << bit) != 0 {
                Event::Succeeded
            } else {
                Event::Failed
            };
            state = step(state, event);
            let now = committed_stage(state);
            assert!(stage_rank(last) <= stage_rank(now));
            assert!(stage_rank(now) <= stage_rank(last) + 1);
            last = now;
        }
    }
}

fn stage_rank(s: Stage) -> u32 {
    match s {
        Stage::Selecting => 0,
        Stage::BuildingMatrix => 1,
        Stage::EmbeddingRelation => 2,
        Stage::Complete => 3,
    }
}

#[test]
fn a_failed_matrix_step_halts_at_building_matrix() {
    let mut state = initial_state();
    state = step(state, Event::Succeeded); // recipes pulled
    state = step(state, Event::Succeeded); // BuildingMatrix committed
    state = step(state, Event::Failed); // matrix construction fails
    assert_eq!(state, PipelineState::Halted(Stage::BuildingMatrix));
    assert_eq!(next_action(state), None);

    // No further event moves a halted pipeline.
    for event in [Event::Succeeded, Event::Failed] {
        let after = step(state, event);
        assert_eq!(after, PipelineState::Halted(Stage::BuildingMatrix));
        assert_eq!(committed_stage(after), Stage::BuildingMatrix);
    }
}

#[test]
fn a_finished_pipeline_never_reenters() {
    let done = step(PipelineState::AwaitCompleteWrite, Event::Succeeded);
    assert_eq!(done, PipelineState::Done);
    for event in [Event::Succeeded, Event::Failed] {
        assert_eq!(step(done, event), PipelineState::Done);
    }
}
