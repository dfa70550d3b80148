//! The sink that accumulates announced route origins and decides when the
//! initial synchronization is complete.
//!
//! The driver of a session asks the sink for an empty batch, fills it with
//! the updates of one protocol message and hands it back together with the
//! timing values. The sink keeps the announced route origins and ignores
//! everything else. An empty batch that arrives once at least one route
//! origin is held means that the initial synchronization is over: the sink
//! then answers with the stop signal, the one means it has to end a read
//! loop that would otherwise go on for as long as the connection lives.

use vstd::prelude::*;
use crate::roa::{announced_origins, Action, Payload, RouteOrigin, Timing};

verus! {

/// The value with which the sink asks its driver to stop reading. It reports
/// that the synchronization is complete, not that anything failed.
#[derive(Clone, Copy, Debug, PartialEq, Eq, Structural)]
pub enum SignalError {
    Stop,
}

/// The sink of a session.
#[derive(Debug)]
pub struct RoaCollector {
    roas: Vec<RouteOrigin>,
    update_count: usize,
    last_update_size: usize,
}

/// What a collector holds: the route origins in the order of their arrival,
/// the number of batches applied and the size of the last of them.
pub struct CollectorState {
    pub roas: Seq<RouteOrigin>,
    pub update_count: nat,
    pub last_update_size: nat,
}

impl View for RoaCollector {
    type V = CollectorState;

    closed spec fn view(&self) -> CollectorState {
        CollectorState {
            roas: self.roas@,
            update_count: self.update_count as nat,
            last_update_size: self.last_update_size as nat,
        }
    }
}

/// Whether a batch tells a collector in state `before` that the initial
/// synchronization is complete: the batch is empty and route origins are
/// already held.
pub open spec fn signals_completion(before: CollectorState, batch: Seq<(Action, Payload)>) -> bool {
    batch.len() == 0 && before.roas.len() > 0
}

/// The state of a collector after a batch has been applied in state
/// `before`. The count of batches stops at the largest `usize`.
pub open spec fn state_after(before: CollectorState, batch: Seq<(Action, Payload)>) -> CollectorState {
    CollectorState {
        roas: before.roas + announced_origins(batch),
        update_count: if before.update_count < usize::MAX {
            before.update_count + 1
        } else {
            before.update_count
        },
        last_update_size: batch.len(),
    }
}

impl RoaCollector {
    /// A collector that holds nothing and has seen no batch.
    pub fn new() -> (collector: RoaCollector)
        ensures
            collector@ == (CollectorState {
                roas: Seq::empty(),
                update_count: 0,
                last_update_size: 0,
            }),
    {
        RoaCollector { roas: Vec::new(), update_count: 0, last_update_size: 0 }
    }

    /// The route origins held, in the order of their arrival.
    pub fn roas(&self) -> (held: &Vec<RouteOrigin>)
        ensures
            held@ == self@.roas,
    {
        &self.roas
    }

    /// Gives up the collector for the route origins it holds.
    pub fn into_roas(self) -> (held: Vec<RouteOrigin>)
        ensures
            held@ == self@.roas,
    {
        self.roas
    }

    /// The number of batches applied so far.
    pub fn update_count(&self) -> (count: usize)
        ensures
            count == self@.update_count,
    {
        self.update_count
    }

    /// The number of updates in the batch applied last.
    pub fn last_update_size(&self) -> (size: usize)
        ensures
            size == self@.last_update_size,
    {
        self.last_update_size
    }

    /// Begins an update: hands out an empty batch for the driver to fill.
    /// The collector itself is left as it is, whether or not the update is
    /// announced as a reset.
    pub fn start(&mut self, reset: bool) -> (batch: Vec<(Action, Payload)>)
        ensures
            batch@ == Seq::<(Action, Payload)>::empty(),
            *final(self) == *old(self),
    {
        Vec::new()
    }

    /// Applies a batch. Every announced route origin is appended, in the
    /// order of the batch; withdrawals and payloads of other kinds are
    /// ignored, and so are the timing values. The answer is the stop signal
    /// if the batch is empty and route origins were already held, and
    /// success otherwise.
    pub fn apply(&mut self, update: Vec<(Action, Payload)>, timing: Timing) -> (signal: Result<
        (),
        SignalError,
    >)
        ensures
            final(self)@ == state_after(old(self)@, update@),
            old(self)@.roas.is_prefix_of(final(self)@.roas),
            signal == if signals_completion(old(self)@, update@) {
                Err::<(), SignalError>(SignalError::Stop)
            } else {
                Ok::<(), SignalError>(())
            },
    {
        if self.update_count < usize::MAX {
            self.update_count += 1;
        }
        self.last_update_size = update.len();
        if update.len() == 0 && self.roas.len() > 0 {
            proof {
                assert(announced_origins(update@) == Seq::<RouteOrigin>::empty());
                assert(self.roas@ + Seq::<RouteOrigin>::empty() == self.roas@);
            }
            return Err(SignalError::Stop);
        }
        let ghost pick = |entry: (Action, Payload)| crate::roa::announced(entry);
        let ghost counted = self.update_count;
        let mut i: usize = 0;
        while i < update.len()
            invariant
                i <= update.len(),
                pick == |entry: (Action, Payload)| crate::roa::announced(entry),
                self.roas@ == old(self).roas@ + update@.take(i as int).filter_map(pick),
                self.update_count == counted,
                self.last_update_size == update.len(),
            decreases update.len() - i,
        {
            proof {
                update@.lemma_filter_map_take_succ(pick, i as int);
            }
            let entry = &update[i];
            match entry.0 {
                Action::Announce => match entry.1 {
                    Payload::Origin(origin) => {
                        self.roas.push(origin);
                    },
                    Payload::Other => {},
                },
                Action::Withdraw => {},
            }
            i += 1;
        }
        proof {
            assert(update@.take(update.len() as int) == update@);
        }
        Ok(())
    }
}

} // verus!
