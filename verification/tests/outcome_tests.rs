use torsim::errors::SimError;
use torsim::outcome::first_error;

#[test]
fn all_ok_reduces_to_ok() {
    let results: Vec<Result<(), SimError>> = vec![Ok(()), Ok(()), Ok(())];
    assert_eq!(first_error(results), Ok(()));
}

#[test]
fn empty_results_reduce_to_ok() {
    let results: Vec<Result<(), SimError>> = Vec::new();
    assert_eq!(first_error(results), Ok(()));
}

#[test]
fn first_of_several_errors_wins() {
    let results: Vec<Result<(), SimError>> = vec![
        Ok(()),
        Err(SimError::ClientProcessing { snapshot: 1 }),
        Err(SimError::TraceIo),
        Ok(()),
    ];
    assert_eq!(first_error(results), Err(SimError::ClientProcessing { snapshot: 1 }));
}
