use rustfs_demo::operation::Operation;
use rustfs_demo::report::Outcome;
use rustfs_demo::session::Session;

fn order() -> Vec<Operation> {
    vec![
        Operation::CreateBucket,
        Operation::DeleteBucket,
        Operation::ListBuckets,
        Operation::ListObjects,
    ]
}

/// Drives a run the way a driver does, answering each operation with the
/// next outcome, and returns what was attempted and where the run ended.
fn drive(outcomes: &[bool]) -> (Vec<Operation>, Session) {
    let mut session = Session::start();
    let mut attempted = Vec::new();
    let mut at = 0;
    while let Some(op) = session.pending() {
        if at == outcomes.len() {
            break;
        }
        attempted.push(op);
        session = session.record(outcomes[at]);
        at += 1;
    }
    (attempted, session)
}

#[test]
fn run_starts_with_create_bucket() {
    assert_eq!(Operation::first(), Operation::CreateBucket);
    assert_eq!(Session::start(), Session::Pending(Operation::CreateBucket));
    assert_eq!(Session::start().pending(), Some(Operation::CreateBucket));
}

#[test]
fn operations_follow_in_the_fixed_order() {
    assert_eq!(Operation::CreateBucket.next(), Some(Operation::DeleteBucket));
    assert_eq!(Operation::DeleteBucket.next(), Some(Operation::ListBuckets));
    assert_eq!(Operation::ListBuckets.next(), Some(Operation::ListObjects));
    assert_eq!(Operation::ListObjects.next(), None);
}

#[test]
fn operations_address_their_buckets() {
    assert_eq!(Operation::CreateBucket.bucket(), Some("rust-sdk-1"));
    assert_eq!(Operation::DeleteBucket.bucket(), Some("cn-east-1rust-sdk"));
    assert_eq!(Operation::ListBuckets.bucket(), None);
    assert_eq!(Operation::ListObjects.bucket(), Some("rust-sdk-1"));
}

#[test]
fn four_successes_complete_the_run() {
    let (attempted, session) = drive(&[true, true, true, true]);
    assert_eq!(attempted, order());
    assert_eq!(session, Session::Completed);
    assert_eq!(session.pending(), None);
}

#[test]
fn failure_of_create_bucket_halts_at_once() {
    let (attempted, session) = drive(&[false, true, true, true]);
    assert_eq!(attempted, vec![Operation::CreateBucket]);
    assert_eq!(session, Session::Failed(Operation::CreateBucket));
}

#[test]
fn failure_of_delete_bucket_halts_after_two() {
    let (attempted, session) = drive(&[true, false, true, true]);
    assert_eq!(attempted, vec![Operation::CreateBucket, Operation::DeleteBucket]);
    assert_eq!(session, Session::Failed(Operation::DeleteBucket));
}

#[test]
fn failure_of_list_buckets_halts_after_three() {
    let (attempted, session) = drive(&[true, true, false, true]);
    assert_eq!(
        attempted,
        vec![Operation::CreateBucket, Operation::DeleteBucket, Operation::ListBuckets]
    );
    assert_eq!(session, Session::Failed(Operation::ListBuckets));
}

#[test]
fn failure_of_list_objects_fails_the_run() {
    let (attempted, session) = drive(&[true, true, true, false]);
    assert_eq!(attempted, order());
    assert_eq!(session, Session::Failed(Operation::ListObjects));
}

#[test]
fn every_run_is_a_beginning_of_the_order_cut_at_the_first_failure() {
    for pattern in 0..16u32 {
        let outcomes: Vec<bool> = (0..4).map(|i| pattern & (1 << i) != 0).collect();
        let (attempted, session) = drive(&outcomes);
        let expected = match outcomes.iter().position(|ok| !ok) {
            Some(k) => k + 1,
            None => 4,
        };
        assert_eq!(attempted, order()[..expected].to_vec());
        match outcomes.iter().position(|ok| !ok) {
            Some(k) => assert_eq!(session, Session::Failed(order()[k])),
            None => assert_eq!(session, Session::Completed),
        }
    }
}

#[test]
fn run_goes_on_while_operations_succeed() {
    let (attempted, session) = drive(&[true, true]);
    assert_eq!(attempted, vec![Operation::CreateBucket, Operation::DeleteBucket]);
    assert_eq!(session, Session::Pending(Operation::ListBuckets));
}

#[test]
fn finished_run_ignores_further_outcomes() {
    let failed = Session::Failed(Operation::DeleteBucket);
    assert_eq!(failed.record(true), failed);
    assert_eq!(failed.record(false), failed);
    assert_eq!(Session::Completed.record(true), Session::Completed);
    assert_eq!(Session::Completed.record(false), Session::Completed);
    assert_eq!(failed.pending(), None);
}

#[test]
fn step_reports_success_and_moves_on() {
    let step = Session::start().step(&Outcome::Succeeded { names: Vec::new() });
    assert_eq!(step.lines, vec!["Bucket created successfully".to_string()]);
    assert_eq!(step.session, Session::Pending(Operation::DeleteBucket));
}

#[test]
fn step_reports_failure_and_halts() {
    let session = Session::Pending(Operation::DeleteBucket);
    let step = session.step(&Outcome::Failed { detail: "NoSuchBucket".to_string() });
    assert_eq!(step.lines, vec!["Error deleting bucket: NoSuchBucket".to_string()]);
    assert_eq!(step.session, Session::Failed(Operation::DeleteBucket));
    assert_eq!(step.session.pending(), None);
}

#[test]
fn step_after_the_last_operation_completes_the_run() {
    let session = Session::Pending(Operation::ListObjects);
    let step = session.step(&Outcome::Succeeded { names: vec![Some("a.txt".to_string())] });
    assert_eq!(
        step.lines,
        vec!["Total objects number is 1".to_string(), "Object: Some(\"a.txt\")".to_string()]
    );
    assert_eq!(step.session, Session::Completed);
}

#[test]
fn step_on_a_finished_run_prints_nothing() {
    let step = Session::Completed.step(&Outcome::Failed { detail: "late".to_string() });
    assert!(step.lines.is_empty());
    assert_eq!(step.session, Session::Completed);

    let failed = Session::Failed(Operation::CreateBucket);
    let step = failed.step(&Outcome::Succeeded { names: Vec::new() });
    assert!(step.lines.is_empty());
    assert_eq!(step.session, failed);
}

#[test]
fn whole_run_with_a_failing_listing() {
    let mut session = Session::start();
    let mut printed: Vec<String> = Vec::new();
    let mut attempted = Vec::new();
    while let Some(op) = session.pending() {
        attempted.push(op);
        let outcome = match op {
            Operation::ListBuckets => Outcome::Failed { detail: "DispatchFailure".to_string() },
            _ => Outcome::Succeeded { names: Vec::new() },
        };
        let step = session.step(&outcome);
        printed.extend(step.lines);
        session = step.session;
    }
    assert_eq!(
        attempted,
        vec![Operation::CreateBucket, Operation::DeleteBucket, Operation::ListBuckets]
    );
    assert_eq!(
        printed,
        vec![
            "Bucket created successfully".to_string(),
            "Bucket deleted successfully".to_string(),
            "Error listing buckets: DispatchFailure".to_string(),
        ]
    );
    assert_eq!(session, Session::Failed(Operation::ListBuckets));
}
