//! The fixed progress stages of a job and their persisted names.

use vstd::prelude::*;

verus! {

/// One point in a job's fixed progress sequence.  `Selecting` is the
/// initial stage, assigned at creation; `Complete` is terminal.
#[derive(Clone, Copy, Debug, PartialEq, Eq, Structural)]
pub enum Stage {
    Selecting,
    BuildingMatrix,
    EmbeddingRelation,
    Complete,
}

/// Position of a stage in the required order
/// `Selecting, BuildingMatrix, EmbeddingRelation, Complete`.
pub open spec fn stage_index(s: Stage) -> int {
    match s {
        Stage::Selecting => 0,
        Stage::BuildingMatrix => 1,
        Stage::EmbeddingRelation => 2,
        Stage::Complete => 3,
    }
}

/// `a` comes no later than `b` in the required order.
pub open spec fn stage_le(a: Stage, b: Stage) -> bool {
    stage_index(a) <= stage_index(b)
}

/// The text under which a stage is persisted and reported.
pub open spec fn stage_name(s: Stage) -> Seq<char> {
    match s {
        Stage::Selecting => "Selecting Recipes"@,
        Stage::BuildingMatrix => "Building Co-occurence Matrix"@,
        Stage::EmbeddingRelation => "Embedding Relation"@,
        Stage::Complete => "Complete"@,
    }
}

impl Stage {
    /// The stage's persisted text.
    pub fn name(&self) -> (r: &'static str)
        ensures
            r@ == stage_name(*self),
    {
        match self {
            Stage::Selecting => "Selecting Recipes",
            Stage::BuildingMatrix => "Building Co-occurence Matrix",
            Stage::EmbeddingRelation => "Embedding Relation",
            Stage::Complete => "Complete",
        }
    }
}

/// The stage persisted under the given text, if the text is a stage
/// name; `None` exactly when it is none of the four names.
pub fn parse_stage(text: &str) -> (r: Option<Stage>)
    ensures
        match r {
            Some(s) => text@ == stage_name(s),
            None => forall|s: Stage| text@ != stage_name(s),
        },
{
    let t = String::from_str(text);
    if t == String::from_str("Selecting Recipes") {
        Some(Stage::Selecting)
    } else if t == String::from_str("Building Co-occurence Matrix") {
        Some(Stage::BuildingMatrix)
    } else if t == String::from_str("Embedding Relation") {
        Some(Stage::EmbeddingRelation)
    } else if t == String::from_str("Complete") {
        Some(Stage::Complete)
    } else {
        None
    }
}

} // verus!
