use infobserve_processor::config::WorkerCfg;
use infobserve_processor::pipeline::{Coordinator, Signal, WorkerKind};

fn coordinator(processors: i64, feeders: i64, loaders: i64) -> Coordinator {
    Coordinator::new(
        &WorkerCfg::from_counts(Some(processors), Some(feeders), Some(loaders)).unwrap(),
    )
}

#[test]
fn the_queues_are_closed_in_order() {
    let mut c = coordinator(2, 2, 2);
    assert!(c.feed_open());
    assert!(c.load_open());
    assert_eq!(c.on_exit(WorkerKind::Feeder), Signal::Wait);
    assert_eq!(c.on_exit(WorkerKind::Feeder), Signal::CloseFeedQueue);
    assert!(!c.feed_open());
    assert!(c.load_open());
    assert_eq!(c.on_exit(WorkerKind::Processor), Signal::Wait);
    assert!(c.load_open());
    assert_eq!(c.on_exit(WorkerKind::Processor), Signal::CloseLoadQueue);
    assert!(!c.load_open());
    assert_eq!(c.on_exit(WorkerKind::Loader), Signal::Wait);
    assert_eq!(c.on_exit(WorkerKind::Loader), Signal::Finished);
}

#[test]
fn one_worker_of_each_kind() {
    let mut c = Coordinator::new(&WorkerCfg::default());
    assert_eq!(c.on_exit(WorkerKind::Feeder), Signal::CloseFeedQueue);
    assert_eq!(c.on_exit(WorkerKind::Processor), Signal::CloseLoadQueue);
    assert_eq!(c.on_exit(WorkerKind::Loader), Signal::Finished);
}

#[test]
fn the_load_queue_stays_open_while_a_processor_runs() {
    let mut c = coordinator(3, 1, 1);
    assert_eq!(c.on_exit(WorkerKind::Feeder), Signal::CloseFeedQueue);
    assert_eq!(c.on_exit(WorkerKind::Loader), Signal::Wait);
    assert!(c.load_open());
    assert_eq!(c.on_exit(WorkerKind::Processor), Signal::Wait);
    assert!(c.load_open());
    assert_eq!(c.on_exit(WorkerKind::Processor), Signal::Wait);
    assert!(c.load_open());
    assert_eq!(c.on_exit(WorkerKind::Processor), Signal::CloseLoadQueue);
    assert!(!c.load_open());
}

#[test]
fn a_queue_is_closed_once() {
    let mut c = coordinator(1, 1, 2);
    assert_eq!(c.on_exit(WorkerKind::Feeder), Signal::CloseFeedQueue);
    assert_eq!(c.on_exit(WorkerKind::Feeder), Signal::Wait);
    assert_eq!(c.on_exit(WorkerKind::Processor), Signal::CloseLoadQueue);
    assert_eq!(c.on_exit(WorkerKind::Processor), Signal::Wait);
    assert_eq!(c.on_exit(WorkerKind::Loader), Signal::Wait);
    assert_eq!(c.on_exit(WorkerKind::Loader), Signal::Finished);
    assert_eq!(c.on_exit(WorkerKind::Loader), Signal::Wait);
}

#[test]
fn processors_that_leave_early_close_the_load_queue_only() {
    let mut c = coordinator(1, 1, 1);
    assert_eq!(c.on_exit(WorkerKind::Processor), Signal::CloseLoadQueue);
    assert!(c.feed_open());
    assert_eq!(c.on_exit(WorkerKind::Loader), Signal::Wait);
    assert_eq!(c.on_exit(WorkerKind::Feeder), Signal::CloseFeedQueue);
}
