use dataplane_sdk::db::control_plane::memory::{MemoryControlPlaneRepo, MemoryTransaction};
use dataplane_sdk::db::control_plane::ControlPlaneRepo;
use dataplane_sdk::error::DbError;
use dataplane_sdk::model::control_plane::ControlPlane;
use dataplane_sdk::postgres::control_plane::model::ControlPlane as DbControlPlane;
use dataplane_sdk::postgres::control_plane::repo::{InsertOutcome, PgControlPlaneRepo};

fn cp(id: &str, url: &str) -> ControlPlane {
    ControlPlane::new(id.to_string(), url.to_string())
}

#[test]
fn memory_fetch_after_create() {
    let mut repo = MemoryControlPlaneRepo::new();
    let mut tx = MemoryTransaction;
    assert!(repo.create(&mut tx, &cp("cp", "http://a")).is_ok());
    let found = repo.fetch_by_id(&mut tx, "cp").unwrap();
    assert_eq!(found, Some(cp("cp", "http://a")));
}

#[test]
fn memory_fetch_missing_is_none() {
    let repo = MemoryControlPlaneRepo::default();
    let mut tx = MemoryTransaction;
    assert_eq!(repo.fetch_by_id(&mut tx, "nope").unwrap(), None);
}

#[test]
fn memory_duplicate_create_is_refused_and_first_stays() {
    let mut repo = MemoryControlPlaneRepo::new();
    let mut tx = MemoryTransaction;
    repo.create(&mut tx, &cp("cp", "http://first")).unwrap();
    match repo.create(&mut tx, &cp("cp", "http://second")) {
        Err(DbError::AlreadyExists(msg)) => {
            assert_eq!(msg, "Control plane with id cp already exists")
        }
        other => panic!("unexpected result: {:?}", other),
    }
    assert_eq!(repo.fetch_by_id(&mut tx, "cp").unwrap(), Some(cp("cp", "http://first")));
}

#[test]
fn memory_create_keeps_other_ids() {
    let mut repo = MemoryControlPlaneRepo::new();
    let mut tx = MemoryTransaction;
    repo.create(&mut tx, &cp("a", "http://a")).unwrap();
    repo.create(&mut tx, &cp("b", "http://b")).unwrap();
    assert_eq!(repo.fetch_by_id(&mut tx, "a").unwrap(), Some(cp("a", "http://a")));
    assert_eq!(repo.fetch_by_id(&mut tx, "b").unwrap(), Some(cp("b", "http://b")));
    assert_eq!(repo.fetch_by_id(&mut tx, "c").unwrap(), None);
}

#[test]
fn memory_first_create_wins_over_a_series() {
    let mut repo = MemoryControlPlaneRepo::new();
    let mut tx = MemoryTransaction;
    let series = [("x", "1"), ("y", "2"), ("x", "3"), ("z", "4"), ("y", "5")];
    let results: Vec<bool> = series
        .iter()
        .map(|(id, url)| repo.create(&mut tx, &cp(id, url)).is_ok())
        .collect();
    assert_eq!(results, vec![true, true, false, true, false]);
    assert_eq!(repo.fetch_by_id(&mut tx, "x").unwrap(), Some(cp("x", "1")));
    assert_eq!(repo.fetch_by_id(&mut tx, "y").unwrap(), Some(cp("y", "2")));
    assert_eq!(repo.fetch_by_id(&mut tx, "z").unwrap(), Some(cp("z", "4")));
}

#[test]
fn pg_create_result_inserted_is_ok() {
    assert!(PgControlPlaneRepo::create_result(InsertOutcome::Inserted, &cp("a", "u")).is_ok());
}

#[test]
fn pg_create_result_unique_violation_is_already_exists() {
    match PgControlPlaneRepo::create_result(InsertOutcome::UniqueViolation, &cp("cp-7", "u")) {
        Err(DbError::AlreadyExists(msg)) => {
            assert_eq!(msg, "Control plane with id cp-7 already exists")
        }
        other => panic!("unexpected result: {:?}", other),
    }
}

#[test]
fn pg_create_result_other_failure_is_generic() {
    let outcome = InsertOutcome::Failed("connection reset".to_string());
    match PgControlPlaneRepo::create_result(outcome, &cp("a", "u")) {
        Err(DbError::Generic(msg)) => assert_eq!(msg, "connection reset"),
        other => panic!("unexpected result: {:?}", other),
    }
}

#[test]
fn pg_fetch_result_maps_row_none_and_error() {
    let row = DbControlPlane { id: "cp".to_string(), url: "http://cb".to_string() };
    assert_eq!(
        PgControlPlaneRepo::fetch_result(Ok(Some(row))).unwrap(),
        Some(cp("cp", "http://cb"))
    );
    assert_eq!(PgControlPlaneRepo::fetch_result(Ok(None)).unwrap(), None);
    match PgControlPlaneRepo::fetch_result(Err("timeout".to_string())) {
        Err(DbError::Generic(msg)) => assert_eq!(msg, "timeout"),
        other => panic!("unexpected result: {:?}", other),
    }
}
