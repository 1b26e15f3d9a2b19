use block_ingestion::{Error, Failure};

#[test]
fn validation_failure_becomes_validation_error() {
    assert_eq!(
        Error::from_failure(Failure::Validation("slot in the past".to_string())),
        Error::Validation("slot in the past".to_string())
    );
}

#[test]
fn apply_failure_becomes_apply_error() {
    assert_eq!(
        Error::from_failure(Failure::Apply("ledger rejected the block".to_string())),
        Error::Apply("ledger rejected the block".to_string())
    );
}

#[test]
fn infrastructure_failure_becomes_infrastructure_error() {
    assert_eq!(
        Error::from_failure(Failure::Infrastructure("storage unreachable".to_string())),
        Error::Infrastructure("storage unreachable".to_string())
    );
}
