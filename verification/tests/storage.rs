use telepass::db::{deletion_outcome, insertion_failure, query_failure, ProcessingError};
use telepass::grpc;
use telepass::storage::{
    cache_size, list_of_resources, CacheSizeError, CacheSizeVar, Code, DatabaseFailure, Error,
    Record, ResourceIsMissingError, Status, CACHE_SIZE_DEFAULT_VALUE,
};

fn wire_record(name: Option<&str>) -> grpc::Record {
    grpc::Record {
        resource: name.map(|n| grpc::Resource { name: n.to_owned() }),
        encrypted_payload: vec![1, 2, 3],
        salt: vec![4, 5],
    }
}

#[test]
fn record_from_wire_keeps_fields() {
    let record = Record::try_from_wire(wire_record(Some("example.com"))).unwrap();
    assert_eq!(
        record,
        Record {
            resource_name: String::from("example.com"),
            encrypted_payload: vec![1, 2, 3],
            salt: vec![4, 5],
        }
    );
}

#[test]
fn record_without_resource_is_invalid() {
    let error = Record::try_from_wire(wire_record(None)).unwrap_err();
    assert_eq!(error, ResourceIsMissingError);
    assert_eq!(error.message(), "`resource` is missing");
}

#[test]
fn record_wire_round_trip() {
    let wire = wire_record(Some("a"));
    let back = Record::try_from_wire(wire.clone()).unwrap().into_wire();
    assert_eq!(back, wire);
}

#[test]
fn database_failures_become_service_errors() {
    let name = String::from("example.com");
    assert_eq!(
        Error::from_database(DatabaseFailure::NotFound, name.clone()),
        Error::NotFound(name.clone())
    );
    assert_eq!(
        Error::from_database(DatabaseFailure::UniqueViolation, name.clone()),
        Error::AlreadyExists(name.clone())
    );
    assert_eq!(
        Error::from_database(DatabaseFailure::Other(String::from("boom")), name),
        Error::Database(String::from("boom"))
    );
}

#[test]
fn errors_are_answered_with_status() {
    assert_eq!(
        Error::NotFound(String::from("a.com")).status(),
        Status { code: Code::NotFound, message: String::from("Resource `a.com` not found") }
    );
    assert_eq!(
        Error::AlreadyExists(String::from("a.com")).status(),
        Status {
            code: Code::AlreadyExists,
            message: String::from("Password for resource `a.com` already exists")
        }
    );
    assert_eq!(
        Error::InvalidRecord(ResourceIsMissingError).status(),
        Status {
            code: Code::InvalidArgument,
            message: String::from("Invalid record: `resource` is missing")
        }
    );
    for error in [
        Error::Database(String::from("boom")),
        Error::FailedToCreateConnectionPool(String::from("boom")),
        Error::FailedToGetConnectionFromThePool(String::from("boom")),
    ] {
        assert_eq!(
            error.status(),
            Status {
                code: Code::Internal,
                message: String::from("Internal error, please try again later")
            }
        );
    }
}

#[test]
fn error_messages() {
    assert_eq!(
        Error::Database(String::from("boom")).message(),
        "Database failure: boom"
    );
    assert_eq!(
        Error::FailedToCreateConnectionPool(String::from("x")).message(),
        "Failed to create connection pool: x"
    );
    assert_eq!(
        Error::FailedToGetConnectionFromThePool(String::from("y")).message(),
        "Failed to get connection from the pool: y"
    );
}

#[test]
fn cache_size_defaults_when_unset_or_empty() {
    assert_eq!(cache_size(&CacheSizeVar::NotPresent), Ok(CACHE_SIZE_DEFAULT_VALUE));
    assert_eq!(cache_size(&CacheSizeVar::Present(String::new())), Ok(1024));
}

#[test]
fn cache_size_is_parsed() {
    assert_eq!(cache_size(&CacheSizeVar::Present(String::from("42"))), Ok(42));
    assert_eq!(cache_size(&CacheSizeVar::Present(String::from("+7"))), Ok(7));
    assert_eq!(
        cache_size(&CacheSizeVar::Present(String::from("4294967295"))),
        Ok(u32::MAX)
    );
}

#[test]
fn cache_size_errors() {
    for bad in ["-1", "abc", "4294967296", " 5", "+"] {
        assert_eq!(
            cache_size(&CacheSizeVar::Present(String::from(bad))),
            Err(CacheSizeError::NotAnInteger)
        );
    }
    assert_eq!(
        cache_size(&CacheSizeVar::NotUnicode),
        Err(CacheSizeError::NotUnicode)
    );
    assert_eq!(
        CacheSizeError::NotAnInteger.message(),
        "Failed to parse `PASSWORD_STORAGE_CACHE_SIZE` environment variable as integer"
    );
    assert_eq!(
        CacheSizeError::NotUnicode.message(),
        "`PASSWORD_STORAGE_CACHE_SIZE` environment variable is not in unicode format"
    );
}

#[test]
fn list_answer_keeps_order() {
    let resources = list_of_resources(vec![String::from("a"), String::from("b")]);
    assert_eq!(
        resources,
        vec![
            grpc::Resource { name: String::from("a") },
            grpc::Resource { name: String::from("b") }
        ]
    );
}

#[test]
fn database_service_answers() {
    let internal = ProcessingError::internal(String::from("cause"));
    assert_eq!(internal.status.code, Code::Internal);
    assert_eq!(internal.status.message, "Internal error, please try again later");
    assert_eq!(internal.additional_info, Some(String::from("cause")));

    let duplicate = insertion_failure(DatabaseFailure::UniqueViolation, String::from("dup"));
    assert_eq!(duplicate.status.code, Code::AlreadyExists);
    assert_eq!(duplicate.status.message, "Password for this resource already exists");
    assert_eq!(duplicate.additional_info, None);

    let missing = query_failure(DatabaseFailure::NotFound, String::from("Record not found"));
    assert_eq!(missing.status.code, Code::NotFound);
    assert_eq!(missing.status.message, "Resource not found");

    let other = query_failure(DatabaseFailure::Other(String::from("down")), String::from("down"));
    assert_eq!(other.additional_info, Some(String::from("down")));
    assert_eq!(other.status.code, Code::Internal);
}

#[test]
fn database_service_deletion_outcomes() {
    assert!(deletion_outcome(1).is_ok());
    let missing = deletion_outcome(0).unwrap_err();
    assert_eq!(missing.status.code, Code::NotFound);
    let too_many = deletion_outcome(2).unwrap_err();
    assert_eq!(too_many.status.code, Code::Internal);
    assert_eq!(too_many.additional_info, Some(String::from("More than one row affected")));
}

#[test]
fn internal_status_is_rewritten() {
    let error = ProcessingError::from_status(Status {
        code: Code::Internal,
        message: String::from("secret detail"),
    });
    assert_eq!(error.status.message, "Internal error, please try again later");
    assert_eq!(error.additional_info, Some(String::from("secret detail")));

    let kept = ProcessingError::from_status(Status {
        code: Code::NotFound,
        message: String::from("Resource not found"),
    });
    assert_eq!(kept.status.message, "Resource not found");
    assert_eq!(kept.additional_info, None);
}

#[test]
fn pool_errors_are_internal() {
    let error = telepass::db::Error::FailedToGetConnectionFromThePool(String::from("timeout"));
    assert_eq!(error.message(), "Failed to get connection from the pool: timeout");
    let processing = ProcessingError::from_error(error);
    assert_eq!(processing.status.code, Code::Internal);
    assert_eq!(
        processing.additional_info,
        Some(String::from("Failed to get connection from the pool: timeout"))
    );
}
