use bulks::future::pass::{Pass, TaskPoll};
use bulks::future::reduce::{combine_results, finish_result, pair_up, ReduceAction, ReduceScan};

#[test]
fn pairs_of_items() {
    assert_eq!(pair_up(vec![1, 2, 3]), vec![(1, Some(2)), (3, None)]);
    assert_eq!(pair_up(vec![1, 2, 3, 4]), vec![(1, Some(2)), (3, Some(4))]);
    assert_eq!(pair_up(Vec::<i32>::new()), vec![]);
}

#[test]
fn pass_finishes_when_all_done() {
    let mut pass = Pass::new();
    assert!(!pass.record(TaskPoll::Done));
    assert!(!pass.record(TaskPoll::Done));
    assert!(pass.finished());

    let mut pass = Pass::new();
    assert!(!pass.record(TaskPoll::Done));
    assert!(!pass.record(TaskPoll::Pending));
    assert!(!pass.record(TaskPoll::Done));
    assert!(!pass.finished());

    let mut pass = Pass::new();
    assert!(!pass.record(TaskPoll::Pending));
    assert!(pass.record(TaskPoll::Stop));

    assert!(Pass::new().finished());
}

#[test]
fn reduce_scan_pairs_finished_values() {
    let mut scan = ReduceScan::new(vec![true, true, true], true);
    let mut trace = Vec::new();
    let mut next = scan.next();
    loop {
        trace.push(next);
        next = match next {
            ReduceAction::Poll(_) => scan.on_poll(true),
            ReduceAction::Combine(_, _) => scan.next(),
            _ => break,
        };
    }
    assert_eq!(
        trace,
        vec![
            ReduceAction::Poll(0),
            ReduceAction::Poll(1),
            ReduceAction::Combine(0, 1),
            ReduceAction::Poll(1),
            ReduceAction::Poll(2),
            ReduceAction::Combine(1, 2),
            ReduceAction::Poll(2),
            ReduceAction::Finish(Some(2)),
        ]
    );
}

#[test]
fn reduce_scan_waits_for_running_tasks() {
    let mut scan = ReduceScan::new(vec![true, true], true);
    assert_eq!(scan.next(), ReduceAction::Poll(0));
    assert_eq!(scan.on_poll(false), ReduceAction::Poll(1));
    assert_eq!(scan.on_poll(true), ReduceAction::Wait);

    let mut scan = ReduceScan::new(vec![false, true, false], true);
    assert_eq!(scan.next(), ReduceAction::Poll(1));
    assert_eq!(scan.on_poll(true), ReduceAction::Finish(Some(1)));

    let mut scan = ReduceScan::new(vec![], true);
    assert_eq!(scan.next(), ReduceAction::Finish(None));

    let mut scan = ReduceScan::new(vec![true], false);
    assert_eq!(scan.next(), ReduceAction::Poll(0));
    assert_eq!(scan.on_poll(true), ReduceAction::Wait);
}

#[test]
fn fallible_reduction_outcomes() {
    assert_eq!(combine_results::<i32, &str>(Ok(1), Ok(2)), Ok((1, 2)));
    assert_eq!(combine_results::<i32, &str>(Err("a"), Err("b")), Err("a"));
    assert_eq!(combine_results::<i32, &str>(Ok(1), Err("b")), Err("b"));
    assert_eq!(combine_results::<i32, &str>(Err("a"), Ok(2)), Err("a"));
    assert_eq!(finish_result::<i32, &str>(None), Ok(None));
    assert_eq!(finish_result::<i32, &str>(Some(Ok(3))), Ok(Some(3)));
    assert_eq!(finish_result::<i32, &str>(Some(Err("e"))), Err("e"));
}
