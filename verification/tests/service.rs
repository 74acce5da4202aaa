use telepass::grpc;
use telepass::service::PasswordStorage;
use telepass::storage::{DatabaseFailure, Error, Record, ResourceIsMissingError};

fn record(name: &str) -> Record {
    Record {
        resource_name: name.to_owned(),
        encrypted_payload: name.as_bytes().to_vec(),
        salt: vec![7; 12],
    }
}

fn wire(name: &str) -> grpc::Record {
    record(name).into_wire()
}

#[test]
fn added_record_is_served_from_the_cache() {
    let mut service = PasswordStorage::new(2, Vec::new());
    let mut stored = Vec::new();
    service
        .add(wire("a.com"), |r: &Record| -> Result<(), DatabaseFailure> {
            stored.push(r.clone());
            Ok(())
        })
        .unwrap();
    assert_eq!(stored, vec![record("a.com")]);
    let answer = service
        .get(String::from("a.com"), |_: &String| -> Result<Record, DatabaseFailure> {
            panic!("the database should not be asked")
        })
        .unwrap();
    assert_eq!(answer, wire("a.com"));
    assert_eq!(service.list(), vec![grpc::Resource { name: String::from("a.com") }]);
}

#[test]
fn adding_a_record_without_resource_is_refused() {
    let mut service = PasswordStorage::new(2, Vec::new());
    let mut request = wire("a.com");
    request.resource = None;
    let error = service
        .add(request, |_: &Record| -> Result<(), DatabaseFailure> {
            panic!("the database should not be asked")
        })
        .unwrap_err();
    assert_eq!(error, Error::InvalidRecord(ResourceIsMissingError));
}

#[test]
fn adding_a_duplicate_is_already_exists() {
    let mut service = PasswordStorage::new(2, Vec::new());
    let error = service
        .add(wire("a.com"), |_: &Record| Err(DatabaseFailure::UniqueViolation))
        .unwrap_err();
    assert_eq!(error, Error::AlreadyExists(String::from("a.com")));
    assert!(service.list().is_empty());
}

#[test]
fn deleting_removes_from_the_cache() {
    let mut service = PasswordStorage::new(2, vec![record("a.com"), record("b.com")]);
    service
        .delete(String::from("a.com"), |_: &String| -> Result<usize, DatabaseFailure> { Ok(1) })
        .unwrap();
    assert_eq!(service.list(), vec![grpc::Resource { name: String::from("b.com") }]);
    let answer = service
        .get(String::from("a.com"), |_: &String| Err(DatabaseFailure::NotFound))
        .unwrap_err();
    assert_eq!(answer, Error::NotFound(String::from("a.com")));
}

#[test]
fn deleting_a_missing_resource_is_not_found() {
    let mut service = PasswordStorage::new(2, vec![record("a.com")]);
    let error = service
        .delete(String::from("x.com"), |_: &String| -> Result<usize, DatabaseFailure> { Ok(0) })
        .unwrap_err();
    assert_eq!(error, Error::NotFound(String::from("x.com")));
    assert_eq!(service.list().len(), 1);
}

#[test]
fn fetched_record_is_cached() {
    let mut service = PasswordStorage::new(1, Vec::new());
    let answer = service
        .get(String::from("a.com"), |name: &String| Ok(record(name)))
        .unwrap();
    assert_eq!(answer, wire("a.com"));
    let again = service
        .get(String::from("a.com"), |_: &String| -> Result<Record, DatabaseFailure> {
            panic!("the database should not be asked")
        })
        .unwrap();
    assert_eq!(again, wire("a.com"));
}

#[test]
fn database_failure_on_get_is_a_database_error() {
    let mut service = PasswordStorage::new(1, Vec::new());
    let error = service
        .get(String::from("a.com"), |_: &String| {
            Err(DatabaseFailure::Other(String::from("connection lost")))
        })
        .unwrap_err();
    assert_eq!(error, Error::Database(String::from("connection lost")));
    assert_eq!(error.status().message, "Internal error, please try again later");
}
