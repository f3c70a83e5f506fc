//! The order in which the pipeline is shut down.
//!
//! Feeders put events on the feed queue, processors take them from there
//! and put processed events on the load queue, loaders take those. Each queue
//! is closed by dropping the sender that the coordinator holds: the feed
//! queue once the last feeder has left, the load queue once the last
//! processor has left. A queue that is closed earlier would fail a worker
//! that still sends to it, so the [`Coordinator`] counts the workers that are
//! running and says when each queue is to be closed.
use crate::config::{WorkerCfg, WorkerCfgView};
use vstd::prelude::*;

verus! {

/// The three kinds of worker.
#[derive(Clone, Copy, Debug, PartialEq, Eq, Structural)]
pub enum WorkerKind {
    Feeder,
    Processor,
    Loader,
}

/// What the coordinator is to do when a worker has left.
#[derive(Clone, Copy, Debug, PartialEq, Eq, Structural)]
pub enum Signal {
    /// Nothing yet.
    Wait,
    /// Close the feed queue: drop its sender.
    CloseFeedQueue,
    /// Close the load queue: drop its sender.
    CloseLoadQueue,
    /// Every worker has left and both queues are closed.
    Finished,
}

/// What a [`Coordinator`] holds.
pub struct CoordinatorView {
    /// The number of feeders that are running.
    pub feeders: nat,
    /// The number of processors that are running.
    pub processors: nat,
    /// The number of loaders that are running.
    pub loaders: nat,
    /// Whether the coordinator still holds the feed queue's sender.
    pub feed_open: bool,
    /// Whether the coordinator still holds the load queue's sender.
    pub load_open: bool,
}

impl CoordinatorView {
    /// The rule of the shutdown: a queue is closed only when none of the
    /// workers that send to it is running.
    pub open spec fn safe(self) -> bool {
        &&& !self.feed_open ==> self.feeders == 0
        &&& !self.load_open ==> self.processors == 0
    }

    /// Whether nothing is left to do.
    pub open spec fn finished(self) -> bool {
        &&& self.feeders == 0
        &&& self.processors == 0
        &&& self.loaders == 0
        &&& !self.feed_open
        &&& !self.load_open
    }

    /// The state once a worker of the given kind has left. A worker of a
    /// kind of which none is running changes nothing.
    pub open spec fn after_exit(self, kind: WorkerKind) -> CoordinatorView {
        match kind {
            WorkerKind::Feeder => if self.feeders == 0 {
                self
            } else {
                CoordinatorView {
                    feeders: (self.feeders - 1) as nat,
                    feed_open: self.feed_open && self.feeders != 1,
                    ..self
                }
            },
            WorkerKind::Processor => if self.processors == 0 {
                self
            } else {
                CoordinatorView {
                    processors: (self.processors - 1) as nat,
                    load_open: self.load_open && self.processors != 1,
                    ..self
                }
            },
            WorkerKind::Loader => if self.loaders == 0 {
                self
            } else {
                CoordinatorView { loaders: (self.loaders - 1) as nat, ..self }
            },
        }
    }

    /// What the coordinator is told when a worker of the given kind has
    /// left: to close a queue when the last worker that sends to it has
    /// left, and that all is over when the last loader has left after that.
    pub open spec fn signal_on_exit(self, kind: WorkerKind) -> Signal {
        match kind {
            WorkerKind::Feeder => if self.feeders == 1 && self.feed_open {
                Signal::CloseFeedQueue
            } else {
                Signal::Wait
            },
            WorkerKind::Processor => if self.processors == 1 && self.load_open {
                Signal::CloseLoadQueue
            } else {
                Signal::Wait
            },
            WorkerKind::Loader => if self.loaders == 1 && self.after_exit(kind).finished() {
                Signal::Finished
            } else {
                Signal::Wait
            },
        }
    }

    /// The state after workers of the given kinds have left, one after the
    /// other.
    pub open spec fn after_exits(self, kinds: Seq<WorkerKind>) -> CoordinatorView
        decreases kinds.len(),
    {
        if kinds.len() == 0 {
            self
        } else {
            self.after_exits(kinds.drop_last()).after_exit(kinds.last())
        }
    }
}

/// The state of a pipeline whose workers have all been started.
pub open spec fn started(workers: WorkerCfgView) -> CoordinatorView {
    CoordinatorView {
        feeders: workers.num_feeders as nat,
        processors: workers.num_processors as nat,
        loaders: workers.num_loaders as nat,
        feed_open: true,
        load_open: true,
    }
}

/// Counts the running workers and says when a queue is to be closed.
#[derive(Debug)]
pub struct Coordinator {
    feeders: u32,
    processors: u32,
    loaders: u32,
    feed_open: bool,
    load_open: bool,
}

impl View for Coordinator {
    type V = CoordinatorView;

    closed spec fn view(&self) -> CoordinatorView {
        CoordinatorView {
            feeders: self.feeders as nat,
            processors: self.processors as nat,
            loaders: self.loaders as nat,
            feed_open: self.feed_open,
            load_open: self.load_open,
        }
    }
}

impl Coordinator {
    #[verifier::type_invariant]
    spec fn holds_the_senders(self) -> bool {
        self@.safe()
    }

    /// The coordinator of a pipeline that has started the workers of a
    /// configuration and holds the senders of both queues.
    pub fn new(workers: &WorkerCfg) -> (coordinator: Self)
        ensures
            coordinator@ == started(workers@),
            coordinator@.safe(),
    {
        Self {
            feeders: workers.num_feeders() as u32,
            processors: workers.num_processors() as u32,
            loaders: workers.num_loaders() as u32,
            feed_open: true,
            load_open: true,
        }
    }

    /// Takes note that a worker of the given kind has left, and says what
    /// is to be done about it.
    pub fn on_exit(&mut self, kind: WorkerKind) -> (signal: Signal)
        ensures
            final(self)@ == old(self)@.after_exit(kind),
            signal == old(self)@.signal_on_exit(kind),
            final(self)@.safe(),
            signal == Signal::CloseLoadQueue ==> final(self)@.processors == 0,
            signal == Signal::CloseFeedQueue ==> final(self)@.feeders == 0,
            signal == Signal::Finished ==> final(self)@.finished(),
    {
        proof {
            use_type_invariant(&*self);
        }
        match kind {
            WorkerKind::Feeder => {
                if self.feeders == 0 {
                    return Signal::Wait;
                }
                if self.feeders == 1 && self.feed_open {
                    *self = Coordinator { feeders: 0, feed_open: false, ..*self };
                    return Signal::CloseFeedQueue;
                }
                *self = Coordinator { feeders: self.feeders - 1, ..*self };
                Signal::Wait
            },
            WorkerKind::Processor => {
                if self.processors == 0 {
                    return Signal::Wait;
                }
                if self.processors == 1 && self.load_open {
                    *self = Coordinator { processors: 0, load_open: false, ..*self };
                    return Signal::CloseLoadQueue;
                }
                *self = Coordinator { processors: self.processors - 1, ..*self };
                Signal::Wait
            },
            WorkerKind::Loader => {
                if self.loaders == 0 {
                    return Signal::Wait;
                }
                *self = Coordinator { loaders: self.loaders - 1, ..*self };
                if self.loaders == 0 && self.feeders == 0 && self.processors == 0
                    && !self.feed_open && !self.load_open {
                    Signal::Finished
                } else {
                    Signal::Wait
                }
            },
        }
    }

    /// Whether the coordinator still holds the feed queue's sender.
    pub fn feed_open(&self) -> (open: bool)
        ensures
            open == self@.feed_open,
            !open ==> self@.feeders == 0,
    {
        proof {
            use_type_invariant(self);
        }
        self.feed_open
    }

    /// Whether the coordinator still holds the load queue's sender. While
    /// a processor is running, it does.
    pub fn load_open(&self) -> (open: bool)
        ensures
            open == self@.load_open,
            !open ==> self@.processors == 0,
    {
        proof {
            use_type_invariant(self);
        }
        self.load_open
    }
}

/// The rule of the shutdown holds throughout: in whatever order the
/// workers leave, the load queue is closed only when no processor is
/// running, and the feed queue only when no feeder is.
pub proof fn lemma_shutdown_is_safe(workers: WorkerCfgView, kinds: Seq<WorkerKind>)
    requires
        workers.num_feeders >= 1,
        workers.num_processors >= 1,
        workers.num_loaders >= 1,
    ensures
        started(workers).after_exits(kinds).safe(),
    decreases kinds.len(),
{
    if kinds.len() > 0 {
        lemma_shutdown_is_safe(workers, kinds.drop_last());
    }
}

/// A queue that was closed stays closed, and no kind of worker grows.
pub proof fn lemma_exit_only_shrinks(state: CoordinatorView, kind: WorkerKind)
    ensures
        state.after_exit(kind).feeders <= state.feeders,
        state.after_exit(kind).processors <= state.processors,
        state.after_exit(kind).loaders <= state.loaders,
        !state.feed_open ==> !state.after_exit(kind).feed_open,
        !state.load_open ==> !state.after_exit(kind).load_open,
{
}

/// The number of workers of one kind among those that have left.
pub open spec fn left(kinds: Seq<WorkerKind>, kind: WorkerKind) -> nat {
    kinds.filter(|k: WorkerKind| k == kind).len()
}

/// The number of workers that still run when `gone` of `started` have
/// left.
pub open spec fn remaining(started: int, gone: nat) -> nat {
    if gone >= started {
        0
    } else {
        (started - gone) as nat
    }
}

/// The coordinator counts the workers that have left, kind by kind, and
/// holds the sender of a queue exactly as long as a worker that sends to it
/// is running.
pub proof fn lemma_exits_are_counted(workers: WorkerCfgView, kinds: Seq<WorkerKind>)
    requires
        workers.num_feeders >= 1,
        workers.num_processors >= 1,
        workers.num_loaders >= 1,
    ensures
        started(workers).after_exits(kinds).feeders == remaining(
            workers.num_feeders,
            left(kinds, WorkerKind::Feeder),
        ),
        started(workers).after_exits(kinds).processors == remaining(
            workers.num_processors,
            left(kinds, WorkerKind::Processor),
        ),
        started(workers).after_exits(kinds).loaders == remaining(
            workers.num_loaders,
            left(kinds, WorkerKind::Loader),
        ),
        started(workers).after_exits(kinds).feed_open == (started(workers).after_exits(
            kinds,
        ).feeders > 0),
        started(workers).after_exits(kinds).load_open == (started(workers).after_exits(
            kinds,
        ).processors > 0),
    decreases kinds.len(),
{
    reveal(Seq::filter);
    if kinds.len() > 0 {
        lemma_exits_are_counted(workers, kinds.drop_last());
    }
}

/// Once every worker has left, in whatever order, both queues are closed
/// and nothing is left to do.
pub proof fn lemma_all_exits_finish(workers: WorkerCfgView, kinds: Seq<WorkerKind>)
    requires
        workers.num_feeders >= 1,
        workers.num_processors >= 1,
        workers.num_loaders >= 1,
        left(kinds, WorkerKind::Feeder) >= workers.num_feeders,
        left(kinds, WorkerKind::Processor) >= workers.num_processors,
        left(kinds, WorkerKind::Loader) >= workers.num_loaders,
    ensures
        started(workers).after_exits(kinds).finished(),
{
    lemma_exits_are_counted(workers, kinds);
}

} // verus!
