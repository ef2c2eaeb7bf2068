use cea::parallel::{chunk_ranges, collect_results, default_thread_count, WorkerOutcome};
use cea::Error;

#[test]
fn default_threads_never_exceed_the_cases_or_the_machine() {
    assert_eq!(default_thread_count(Some(8), 3), 3);
    assert_eq!(default_thread_count(Some(2), 10), 2);
    assert_eq!(default_thread_count(Some(8), 0), 1);
    assert_eq!(default_thread_count(None, 10), 1);
    assert_eq!(default_thread_count(Some(4), 4), 4);
}

#[test]
fn cases_are_cut_into_consecutive_chunks() {
    assert_eq!(chunk_ranges(5, 4).unwrap(), vec![(0, 2), (2, 4), (4, 5)]);
    assert_eq!(chunk_ranges(6, 3).unwrap(), vec![(0, 2), (2, 4), (4, 6)]);
    assert_eq!(chunk_ranges(3, 8).unwrap(), vec![(0, 1), (1, 2), (2, 3)]);
    assert_eq!(chunk_ranges(7, 1).unwrap(), vec![(0, 7)]);
    assert_eq!(chunk_ranges(10, 4).unwrap(), vec![(0, 3), (3, 6), (6, 9), (9, 10)]);
}

#[test]
fn no_cases_need_no_workers_and_no_workers_are_refused() {
    assert_eq!(chunk_ranges(0, 0).unwrap(), Vec::<(usize, usize)>::new());
    assert_eq!(chunk_ranges(0, 4).unwrap(), Vec::<(usize, usize)>::new());
    match chunk_ranges(3, 0) {
        Err(Error::InvalidInput { context, message }) => {
            assert_eq!(context, "run_parallel_cases");
            assert_eq!(message, "thread count must be greater than zero");
        }
        other => panic!("expected a refusal, got {:?}", other),
    }
}

#[test]
fn results_come_back_in_case_order() {
    let ranges = chunk_ranges(5, 2).unwrap();
    assert_eq!(ranges, vec![(0, 3), (3, 5)]);
    let outcomes: Vec<WorkerOutcome<u32>> = vec![Some(Ok(vec![10, 11, 12])), Some(Ok(vec![13, 14]))];
    assert_eq!(collect_results(&ranges, outcomes).unwrap(), vec![10, 11, 12, 13, 14]);
}

#[test]
fn the_first_failed_worker_decides_the_error() {
    let ranges = vec![(0, 1), (1, 2), (2, 3)];
    let outcomes: Vec<WorkerOutcome<u32>> = vec![
        Some(Ok(vec![1])),
        Some(Err(Error::Cea { code: 4, context: "cea_eqsolver_solve".to_string() })),
        None,
    ];
    match collect_results(&ranges, outcomes) {
        Err(Error::Cea { code, context }) => {
            assert_eq!(code, 4);
            assert_eq!(context, "cea_eqsolver_solve");
        }
        other => panic!("expected the worker's error, got {:?}", other),
    }
    let outcomes: Vec<WorkerOutcome<u32>> = vec![
        Some(Ok(vec![1])),
        None,
        Some(Err(Error::Cea { code: 4, context: "cea_eqsolver_solve".to_string() })),
    ];
    match collect_results(&ranges, outcomes) {
        Err(Error::ThreadPanic { context }) => assert_eq!(context, "run_parallel_cases"),
        other => panic!("expected a panic report, got {:?}", other),
    }
}

#[test]
fn a_missing_result_is_named_by_its_case() {
    let ranges = chunk_ranges(20, 2).unwrap();
    assert_eq!(ranges, vec![(0, 10), (10, 20)]);
    let outcomes: Vec<WorkerOutcome<u32>> =
        vec![Some(Ok((0..10).collect())), Some(Ok((10..17).collect()))];
    match collect_results(&ranges, outcomes) {
        Err(Error::ThreadPanic { context }) => {
            assert_eq!(context, "run_parallel_cases result 17")
        }
        other => panic!("expected a missing result, got {:?}", other),
    }
    let ranges = vec![(0, 2)];
    let outcomes: Vec<WorkerOutcome<u32>> = vec![Some(Ok(vec![]))];
    match collect_results(&ranges, outcomes) {
        Err(Error::ThreadPanic { context }) => assert_eq!(context, "run_parallel_cases result 0"),
        other => panic!("expected a missing result, got {:?}", other),
    }
}
