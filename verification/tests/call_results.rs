use pool_manager::calls::{next_call, settle};

#[test]
fn calls_are_made_until_one_fails() {
    let mut results: Vec<Result<(), u8>> = Vec::new();
    assert_eq!(next_call(2, &results), Some(0));
    results.push(Ok(()));
    assert_eq!(next_call(2, &results), Some(1));
    results.push(Ok(()));
    assert_eq!(next_call(2, &results), None);

    let results: Vec<Result<(), u8>> = vec![Err(4)];
    assert_eq!(next_call(2, &results), None);
    let results: Vec<Result<(), u8>> = vec![Ok(()), Err(4)];
    assert_eq!(next_call(5, &results), None);
    let results: Vec<Result<(), u8>> = Vec::new();
    assert_eq!(next_call(0, &results), None);
}

#[test]
fn new_records_are_stored_when_all_calls_went_through() {
    let results: Vec<Result<(), u8>> = vec![Ok(()), Ok(())];
    let settled = settle("old", "new", results);
    assert_eq!((settled.records, settled.result), ("new", Ok(())));

    let results: Vec<Result<(), u8>> = Vec::new();
    let settled = settle(1, 2, results);
    assert_eq!((settled.records, settled.result), (2, Ok(())));
}

#[test]
fn records_stay_when_a_call_fails() {
    let results: Vec<Result<(), u8>> = vec![Err(4)];
    let settled = settle("old", "new", results);
    assert_eq!((settled.records, settled.result), ("old", Err(4)));

    let results: Vec<Result<(), u8>> = vec![Ok(()), Err(5), Err(6)];
    let settled = settle("old", "new", results);
    assert_eq!((settled.records, settled.result), ("old", Err(5)));
}
