//! Scripted stand-ins for the bus and the control lines, so the transport can
//! be exercised and its contracts checked without hardware: an output line
//! that records every level driven on it, an input line with a fixed reading,
//! and a bus that answers transfers from a queue of prepared replies.

use vstd::prelude::*;

use crate::hal::{Bus, BusOp, InputLine, OutputLine};

verus! {

/// The error every simulated device reports.
#[derive(Clone, Copy, Debug, PartialEq, Eq)]
pub struct SimError;

/// A digital output that records the levels driven on it; it can be made to
/// refuse every drive attempt.
pub struct SimOutputLine {
    /// Levels driven so far, oldest first; `true` is high.
    pub levels: Vec<bool>,
    /// When set, every drive attempt fails.
    pub fail: bool,
}

impl OutputLine for SimOutputLine {
    type LineError = SimError;

    open spec fn driven(&self) -> Seq<bool> {
        self.levels@
    }

    fn set_low(&mut self) -> (r: Result<(), SimError>) {
        if self.fail {
            Err(SimError)
        } else {
            self.levels.push(false);
            Ok(())
        }
    }

    fn set_high(&mut self) -> (r: Result<(), SimError>) {
        if self.fail {
            Err(SimError)
        } else {
            self.levels.push(true);
            Ok(())
        }
    }
}

/// A digital input with a fixed reading.
pub struct SimInputLine {
    /// `None`: reading the line fails; `Some(b)`: the line reads low iff `b`.
    pub reading: Option<bool>,
}

impl InputLine for SimInputLine {
    type LineError = SimError;

    open spec fn poll_low(&self) -> Option<bool> {
        self.reading
    }

    fn is_low(&self) -> (r: Result<bool, SimError>) {
        match self.reading {
            Some(b) => Ok(b),
            None => Err(SimError),
        }
    }
}

/// A scripted bus. Writes are kept for inspection; each transfer consumes the
/// next prepared reply, and fails when none of the right size is queued.
pub struct SimBus {
    /// Replies still to hand out, next one first; a transfer whose size
    /// differs from the next reply's fails.
    pub replies: Vec<Vec<u8>>,
    /// The bytes of every completed write, oldest first.
    pub writes: Vec<Vec<u8>>,
    /// When set, every write fails.
    pub fail_writes: bool,
    /// When set, every transfer fails.
    pub fail_transfers: bool,
    /// The completed operations, as the `Bus` contract speaks of them.
    pub log: Ghost<Seq<BusOp>>,
}

impl SimBus {
    /// A working bus that will answer successive transfers with `replies`.
    pub fn new(replies: Vec<Vec<u8>>) -> (b: SimBus)
        ensures
            b.replies == replies,
            b.writes@ == Seq::<Vec<u8>>::empty(),
            !b.fail_writes,
            !b.fail_transfers,
            b.transcript() == Seq::<BusOp>::empty(),
    {
        SimBus {
            replies,
            writes: Vec::new(),
            fail_writes: false,
            fail_transfers: false,
            log: Ghost(Seq::empty()),
        }
    }
}

impl Bus for SimBus {
    type BusError = SimError;

    open spec fn transcript(&self) -> Seq<BusOp> {
        self.log@
    }

    fn write(&mut self, data: &[u8]) -> (r: Result<(), SimError>) {
        if self.fail_writes {
            Err(SimError)
        } else {
            let copy = vstd::slice::slice_to_vec(data);
            self.writes.push(copy);
            proof {
                self.log@ = self.log@.push(BusOp::Write(data@));
            }
            Ok(())
        }
    }

    fn transfer(&mut self, data: &mut [u8], start: usize, end: usize) -> (r: Result<
        (),
        SimError,
    >) {
        if self.fail_transfers {
            return Err(SimError);
        }
        if self.replies.len() == 0 {
            return Err(SimError);
        }
        if self.replies[0].len() != end - start {
            return Err(SimError);
        }
        let reply = self.replies.remove(0);
        let ghost sent = data@.subrange(start as int, end as int);
        let ghost len0 = data@.len();
        let mut j: usize = 0;
        while j < reply.len()
            invariant
                j <= reply@.len(),
                reply@.len() == end - start,
                start <= end <= len0,
                data@.len() == len0,
                forall|k: int|
                    0 <= k < data@.len() && !(start <= k < end) ==> data@[k] == old(data)@[k],
                forall|k: int| 0 <= k < j ==> data@[start as int + k] == reply@[k],
            decreases reply@.len() - j,
        {
            data[start + j] = reply[j];
            j += 1;
        }
        proof {
            assert(data@.subrange(start as int, end as int) =~= reply@);
            self.log@ = self.log@.push(
                BusOp::Transfer(sent, data@.subrange(start as int, end as int)),
            );
        }
        Ok(())
    }
}

} // verus!
