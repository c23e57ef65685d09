//! The generator as a state machine over mathematical integers.
//!
//! A state holds the node address, the timestamp and sequence number of the
//! identifier issued last, and the mode the generator is in. A step takes one
//! reading of the clock and either issues an identifier, asks the caller to
//! wait for the next millisecond, or fails because the clock went backwards.

use vstd::prelude::*;
use crate::layout::{pack, fields_in_range, MAX_SEQUENCE};

verus! {

/// What the generator is doing between two steps.
pub enum Mode {
    /// Ready to issue.
    Steady,
    /// All sequence numbers of the current millisecond are used: the
    /// operation in flight waits for the clock to pass it.
    Saturated,
    /// The clock was seen going backwards: nothing is issued any more.
    RolledBack { moved_back_by: nat },
}

/// What one step gives its caller.
pub enum Outcome {
    /// A new identifier.
    Issued(nat),
    /// Nothing yet: read the clock again after a pause and step again.
    Wait,
    /// The clock went backwards by that many milliseconds.
    Failed(nat),
}

/// The state of a generator.
pub struct GeneratorState {
    /// Timestamp of the identifier issued last, or of the construction.
    pub last_time_millis: nat,
    pub worker_id: nat,
    pub data_center_id: nat,
    /// Sequence number of the identifier issued last, 0 after construction.
    pub sequence: nat,
    pub mode: Mode,
}

impl GeneratorState {
    /// The state of a generator constructed at time `now`.
    pub open spec fn initial(worker_id: nat, data_center_id: nat, now: nat) -> GeneratorState {
        GeneratorState {
            last_time_millis: now,
            worker_id,
            data_center_id,
            sequence: 0,
            mode: Mode::Steady,
        }
    }

    /// The fields fit the layout; a saturated generator has used the last
    /// sequence number; a recorded rollback is of at least one millisecond.
    pub open spec fn valid(self) -> bool {
        &&& fields_in_range(self.data_center_id, self.worker_id, self.sequence)
        &&& self.mode is Saturated ==> self.sequence == MAX_SEQUENCE
        &&& self.mode matches Mode::RolledBack { moved_back_by } ==> 1 <= moved_back_by
            <= self.last_time_millis
    }

    /// The identifier that this state's node gives to a timestamp and a
    /// sequence number.
    pub open spec fn id_for(self, timestamp: nat, sequence: nat) -> nat {
        pack(timestamp, self.data_center_id, self.worker_id, sequence)
    }

    /// The identifier of the state's own timestamp and sequence number: the
    /// one issued last, if any was.
    pub open spec fn high_water_mark(self) -> nat {
        self.id_for(self.last_time_millis, self.sequence)
    }

    /// The state after one step at clock reading `now`.
    pub open spec fn step(self, now: nat) -> GeneratorState {
        match self.mode {
            Mode::RolledBack { .. } => self,
            Mode::Saturated => if now > self.last_time_millis {
                GeneratorState { last_time_millis: now, sequence: 0, mode: Mode::Steady, ..self }
            } else {
                self
            },
            Mode::Steady => if now < self.last_time_millis {
                GeneratorState {
                    mode: Mode::RolledBack {
                        moved_back_by: (self.last_time_millis - now) as nat,
                    },
                    ..self
                }
            } else if now > self.last_time_millis {
                GeneratorState { last_time_millis: now, sequence: 0, ..self }
            } else if self.sequence < MAX_SEQUENCE {
                GeneratorState { sequence: self.sequence + 1, ..self }
            } else {
                GeneratorState { mode: Mode::Saturated, ..self }
            },
        }
    }

    /// What one step at clock reading `now` gives its caller.
    pub open spec fn outcome(self, now: nat) -> Outcome {
        match self.mode {
            Mode::RolledBack { moved_back_by } => Outcome::Failed(moved_back_by),
            Mode::Saturated => if now > self.last_time_millis {
                Outcome::Issued(self.id_for(now, 0))
            } else {
                Outcome::Wait
            },
            Mode::Steady => if now < self.last_time_millis {
                Outcome::Failed((self.last_time_millis - now) as nat)
            } else if now > self.last_time_millis {
                Outcome::Issued(self.id_for(now, 0))
            } else if self.sequence < MAX_SEQUENCE {
                Outcome::Issued(self.id_for(now, self.sequence + 1))
            } else {
                Outcome::Wait
            },
        }
    }

    /// The state after stepping through the clock readings in order.
    pub open spec fn run(self, clock: Seq<nat>) -> GeneratorState
        decreases clock.len(),
    {
        if clock.len() == 0 {
            self
        } else {
            self.run(clock.drop_last()).step(clock.last())
        }
    }

    /// What the step at reading number `k` of the clock gives, after the
    /// readings before it.
    pub open spec fn outcome_at(self, clock: Seq<nat>, k: int) -> Outcome
        recommends
            0 <= k < clock.len(),
    {
        self.run(clock.take(k)).outcome(clock[k])
    }

    /// How many identifiers the steps through the clock readings issue at
    /// readings equal to `t`: they are the identifiers with timestamp `t`.
    pub open spec fn issued_at(self, clock: Seq<nat>, t: nat) -> nat
        decreases clock.len(),
    {
        if clock.len() == 0 {
            0
        } else {
            let before = self.issued_at(clock.drop_last(), t);
            if clock.last() == t && self.run(clock.drop_last()).outcome(t) is Issued {
                before + 1
            } else {
                before
            }
        }
    }
}

} // verus!
