use recipe_api::stage::{parse_stage, Stage};

#[test]
fn stage_names_are_the_persisted_texts() {
    assert_eq!(Stage::Selecting.name(), "Selecting Recipes");
    assert_eq!(Stage::BuildingMatrix.name(), "Building Co-occurence Matrix");
    assert_eq!(Stage::EmbeddingRelation.name(), "Embedding Relation");
    assert_eq!(Stage::Complete.name(), "Complete");
}

#[test]
fn parse_inverts_name() {
    let stages = [
        Stage::Selecting,
        Stage::BuildingMatrix,
        Stage::EmbeddingRelation,
        Stage::Complete,
    ];
    for s in stages {
        assert_eq!(parse_stage(s.name()), Some(s));
    }
}

#[test]
fn parse_rejects_texts_that_name_no_stage() {
    assert_eq!(parse_stage(""), None);
    assert_eq!(parse_stage("Failed"), None);
    assert_eq!(parse_stage("selecting recipes"), None);
    assert_eq!(parse_stage("Complete "), None);
}
