use recipe_api::stage::Stage;
use recipe_api::store::{JobStore, StoreError};

#[test]
fn creation_assigns_sequential_ids_starting_at_one() {
    let mut store = JobStore::new();
    assert_eq!(store.create_job(), 1);
    assert_eq!(store.create_job(), 2);
    assert_eq!(store.create_job(), 3);
    assert_eq!(store.len(), 3);
}

#[test]
fn a_new_job_starts_at_selecting() {
    let mut store = JobStore::new();
    let id = store.create_job();
    assert_eq!(store.get_status(id), Ok(Stage::Selecting));
}

#[test]
fn unknown_ids_yield_not_found() {
    let mut store = JobStore::new();
    assert_eq!(store.get_status(1), Err(StoreError::NotFound));
    let id = store.create_job();
    assert_eq!(id, 1);
    assert_eq!(store.get_status(2), Err(StoreError::NotFound));
    assert_eq!(store.get_status(0), Err(StoreError::NotFound));
    assert_eq!(store.get_status(-7), Err(StoreError::NotFound));
}

#[test]
fn set_status_overwrites_only_that_job() {
    let mut store = JobStore::new();
    let a = store.create_job();
    let b = store.create_job();
    assert_eq!(store.set_status(a, Stage::BuildingMatrix), Ok(()));
    assert_eq!(store.get_status(a), Ok(Stage::BuildingMatrix));
    assert_eq!(store.get_status(b), Ok(Stage::Selecting));
}

#[test]
fn set_status_on_an_unknown_id_yields_not_found() {
    let mut store = JobStore::new();
    assert_eq!(
        store.set_status(5, Stage::Complete),
        Err(StoreError::NotFound)
    );
    assert_eq!(store.get_status(5), Err(StoreError::NotFound));
}

#[test]
fn many_creations_hand_out_pairwise_distinct_ids() {
    let mut store = JobStore::new();
    let ids = store.create_jobs(50);
    assert_eq!(ids.len(), 50);
    for i in 0..ids.len() {
        for j in 0..ids.len() {
            if i != j {
                assert_ne!(ids[i], ids[j]);
            }
        }
        assert_eq!(store.get_status(ids[i]), Ok(Stage::Selecting));
    }
}
