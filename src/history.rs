//! The consumer side: a history of snapshots drained from the publisher's
//! channel, and the detection of a producer that has gone away.

use vstd::prelude::*;
use std::sync::mpsc::{Receiver, TryRecvError};

verus! {

#[verifier::external_type_specification]
#[verifier::external_body]
#[verifier::reject_recursive_types(T)]
pub struct ExReceiver<T>(Receiver<T>);

#[verifier::external_type_specification]
#[verifier::external_body]
pub struct ExIoError(std::io::Error);

/// What one non-blocking receive on the snapshot channel found.
#[derive(Clone, Copy, Debug, PartialEq, Eq, Structural)]
pub enum Received {
    /// A snapshot was waiting.
    Value(u16),
    /// Nothing was waiting; the publisher is still there.
    Empty,
    /// Nothing was waiting and the publisher is gone for good.
    Disconnected,
}

/// Why a history stopped taking snapshots.
#[derive(Debug)]
pub enum Ending {
    /// The reading task failed with this error.
    Failed(std::io::Error),
    /// The producer went away and left no failure record.
    NoCause,
}

/// Relies on `Receiver::try_iter` (collected into a `Vec`): the snapshots
/// that wait in the channel, in the order they were sent, without blocking.
/// Which ones wait depends on the other threads, so nothing is stated.
#[verifier::external_body]
fn pending(rx: &Receiver<u16>) -> (r: Vec<u16>) {
    rx.try_iter().collect()
}

/// Relies on `Receiver::try_recv`: one receive that does not block, its three
/// outcomes told apart. Which one comes depends on the other threads, so
/// nothing is stated.
#[verifier::external_body]
fn probe(rx: &Receiver<u16>) -> (r: Received) {
    match rx.try_recv() {
        Ok(v) => Received::Value(v),
        Err(TryRecvError::Empty) => Received::Empty,
        Err(TryRecvError::Disconnected) => Received::Disconnected,
    }
}

/// Relies on `Receiver::recv`: blocks until a failure record arrives, or
/// returns `None` once every sender is gone without one.
#[verifier::external_body]
fn take_failure(rx: &Receiver<std::io::Error>) -> (r: Option<std::io::Error>) {
    rx.recv().ok()
}

/// The state of a [`Data`] as plain values.
pub struct DataView {
    /// Every snapshot received so far, in order of arrival.
    pub history: Seq<u16>,
    /// Whether the producer was found gone.
    pub closed: bool,
    /// How many times the failure channel was read.
    pub failure_reads: nat,
}

/// The state after one drain that found the snapshots `batch` waiting and
/// then `status` on one more receive. A closed history takes nothing.
pub open spec fn absorbed(v: DataView, batch: Seq<u16>, status: Received) -> DataView {
    if v.closed {
        v
    } else {
        match status {
            Received::Value(s) => DataView { history: v.history + batch + seq![s], ..v },
            Received::Empty => DataView { history: v.history + batch, ..v },
            Received::Disconnected => DataView {
                history: v.history + batch,
                closed: true,
                failure_reads: v.failure_reads + 1,
            },
        }
    }
}

/// Whether the producer is still considered alive after such a drain.
pub open spec fn still_alive(v: DataView, status: Received) -> bool {
    !v.closed && !(status is Disconnected)
}

/// The consumer's history of snapshots, with the receiving ends of the
/// snapshot channel and of the failure channel.
pub struct Data {
    rx: Receiver<u16>,
    rx_error: Receiver<std::io::Error>,
    data: Vec<u16>,
    ending: Option<Ending>,
    failure_reads: Ghost<nat>,
}

impl View for Data {
    type V = DataView;

    closed spec fn view(&self) -> DataView {
        DataView {
            history: self.data@,
            closed: self.ending is Some,
            failure_reads: self.failure_reads@,
        }
    }
}

impl Data {
    /// The failure channel is read once, when the history closes, and never
    /// before.
    pub closed spec fn wf(&self) -> bool {
        self.failure_reads@ == if self.ending is Some {
            1nat
        } else {
            0nat
        }
    }

    /// An empty, open history over the receiving end `rx` of the snapshot
    /// channel and `rx_error` of the failure channel.
    pub fn new(rx: Receiver<u16>, rx_error: Receiver<std::io::Error>) -> (r: Data)
        ensures
            r.wf(),
            r@.history == Seq::<u16>::empty(),
            !r@.closed,
            r@.failure_reads == 0,
    {
        Data { rx, rx_error, data: Vec::new(), ending: None, failure_reads: Ghost(0) }
    }

    /// Takes the outcome of one drain: `batch`, the snapshots that were
    /// waiting, then `status`, what one more receive found. Appends them to
    /// the history; on `Disconnected`, reads the failure channel once and
    /// closes. Returns whether the producer is still alive. A closed history
    /// ignores its input and returns `false`.
    pub fn absorb(&mut self, batch: Vec<u16>, status: Received) -> (r: bool)
        requires
            old(self).wf(),
        ensures
            final(self).wf(),
            final(self)@ == absorbed(old(self)@, batch@, status),
            r == still_alive(old(self)@, status),
    {
        if self.ending.is_some() {
            return false;
        }
        let ghost pre = self.data@;
        let mut batch = batch;
        let ghost b = batch@;
        self.data.append(&mut batch);
        match status {
            Received::Value(s) => {
                self.data.push(s);
                assert(self.data@ =~= pre + b + seq![s]);
                true
            },
            Received::Empty => true,
            Received::Disconnected => {
                let found = take_failure(&self.rx_error);
                self.ending = match found {
                    Some(e) => Some(Ending::Failed(e)),
                    None => Some(Ending::NoCause),
                };
                self.failure_reads = Ghost(self.failure_reads@ + 1);
                false
            },
        }
    }

    /// Drains, without blocking, the snapshots that wait in the channel into
    /// the history. Returns `true` while the producer is alive; once it is
    /// found gone, reads the failure channel (blocking) and returns `false`,
    /// then and on every later call.
    pub fn poll(&mut self) -> (r: bool)
        requires
            old(self).wf(),
        ensures
            final(self).wf(),
            old(self)@.closed ==> !r && final(self)@ == old(self)@,
            old(self)@.history.is_prefix_of(final(self)@.history),
            r == !final(self)@.closed,
            exists|batch: Seq<u16>, status: Received|
                final(self)@ == absorbed(old(self)@, batch, status) && r == still_alive(
                    old(self)@,
                    status,
                ),
    {
        if self.ending.is_some() {
            assert(absorbed(self@, Seq::<u16>::empty(), Received::Empty) == self@);
            return false;
        }
        let batch = pending(&self.rx);
        let status = probe(&self.rx);
        let ghost b = batch@;
        let r = self.absorb(batch, status);
        assert(self@ == absorbed(old(self)@, b, status));
        proof {
            lemma_drain_extends_history(old(self)@, b, status);
        }
        r
    }

    /// Every snapshot received so far, in order of arrival.
    pub fn values(&self) -> (r: &[u16])
        ensures
            r@ == self@.history,
    {
        self.data.as_slice()
    }

    /// Why the history closed; `None` while it is open.
    pub fn ending(&self) -> (r: Option<&Ending>)
        ensures
            r is Some <==> self@.closed,
    {
        self.ending.as_ref()
    }
}

/// A drain that finds nothing waiting leaves an open history as it was and
/// reports the producer alive.
pub proof fn lemma_idle_drain_changes_nothing(v: DataView)
    requires
        !v.closed,
    ensures
        absorbed(v, Seq::<u16>::empty(), Received::Empty) == v,
        still_alive(v, Received::Empty),
{
    assert(v.history + Seq::<u16>::empty() =~= v.history);
}

/// Once closed, a history stays closed and unchanged, and reports the
/// producer gone, whatever later drains find.
pub proof fn lemma_closed_stays_closed(v: DataView, batch: Seq<u16>, status: Received)
    requires
        v.closed,
    ensures
        absorbed(v, batch, status) == v,
        !still_alive(v, status),
{
}

/// A drain never drops, reorders or changes the snapshots already held.
pub proof fn lemma_drain_extends_history(v: DataView, batch: Seq<u16>, status: Received)
    ensures
        v.history.is_prefix_of(absorbed(v, batch, status).history),
{
    let h = absorbed(v, batch, status).history;
    assert(h.subrange(0, v.history.len() as int) =~= v.history);
}

/// The failure channel is read at most once over the life of a history,
/// and exactly once when it is closed.
pub proof fn lemma_failure_read_at_most_once(d: &Data)
    requires
        d.wf(),
    ensures
        d@.failure_reads <= 1,
        d@.failure_reads == 1 <==> d@.closed,
{
}

} // verus!
