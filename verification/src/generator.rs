//! The identifier generator.

use vstd::prelude::*;
use crate::clock::{since_unix_epoch, system_time_now, timestamp_from_unix_millis, whole_millis};
use crate::laws::lemma_step;
use crate::layout::{
    compose,
    lemma_fields_by_shifts,
    lemma_pack_fields,
    MAX_DATA_CENTER_ID,
    MAX_SEQUENCE,
    MAX_TIMESTAMP,
    MAX_WORKER_ID,
};
use crate::model::{GeneratorState, Mode, Outcome};

verus! {

/// A node address that does not fit the layout.
#[derive(Debug, Clone, Copy, PartialEq, Eq, Structural)]
pub enum ConfigError {
    /// The worker id is above 31.
    WorkerIdOutOfRange { worker_id: u8 },
    /// The data-center id is above 31.
    DataCenterIdOutOfRange { data_center_id: u8 },
}

/// The clock was seen earlier than the time of the identifier issued last.
/// A generator that has seen this issues nothing any more and answers every
/// later step with the same error: it has to be replaced by a new one.
#[derive(Debug, Clone, Copy, PartialEq, Eq, Structural)]
pub struct ClockError {
    /// By how many milliseconds the clock lay behind when this was noticed.
    pub moved_back_by: u128,
}

/// What a step that did not fail gives.
#[derive(Debug, Clone, Copy, PartialEq, Eq, Structural)]
pub enum Step {
    /// A new identifier.
    Issued(u128),
    /// The sequence numbers of this millisecond are used up: pause, then step
    /// again.
    Wait,
}

#[derive(Debug, Clone, Copy, PartialEq, Eq, Structural)]
enum Phase {
    Steady,
    Saturated,
    RolledBack { moved_back_by: u128 },
}

/// Issues identifiers for one node. It holds the node address, the timestamp
/// and sequence number of the identifier issued last, and whether it is
/// waiting for the clock or has seen the clock go backwards.
///
/// A step needs the generator exclusively, so callers that share one take
/// turns. There is no `Clone`: two generators with one node address and
/// independent states would issue the same identifiers.
#[derive(Debug)]
pub struct SnowflakeGenerator {
    last_time_millis: u128,
    worker_id: u8,
    data_center_id: u8,
    sequence: u16,
    phase: Phase,
}

/// The error that a node address is refused with, if it is: the worker id is
/// looked at first.
pub open spec fn node_address_error(worker_id: u8, data_center_id: u8) -> Option<ConfigError> {
    if worker_id > MAX_WORKER_ID {
        Some(ConfigError::WorkerIdOutOfRange { worker_id })
    } else if data_center_id > MAX_DATA_CENTER_ID {
        Some(ConfigError::DataCenterIdOutOfRange { data_center_id })
    } else {
        None
    }
}

/// The outcome that a step's result stands for.
pub open spec fn outcome_of(result: Result<Step, ClockError>) -> Outcome {
    match result {
        Ok(Step::Issued(id)) => Outcome::Issued(id as nat),
        Ok(Step::Wait) => Outcome::Wait,
        Err(error) => Outcome::Failed(error.moved_back_by as nat),
    }
}

/// What holds of an identifier that a step from `before` to `after` issued:
/// it is above every identifier issued before, it is the new high-water mark,
/// and its bits from 12 up and from 17 up hold the node address.
pub open spec fn issued_by(id: u128, before: GeneratorState, after: GeneratorState) -> bool {
    &&& before.high_water_mark() < id
    &&& id == after.high_water_mark()
    &&& (id >> 12) & 0x1f == before.worker_id
    &&& (id >> 17) & 0x1f == before.data_center_id
    &&& id & 0xfff == after.sequence
    &&& id >> 22 == after.last_time_millis
}

impl View for SnowflakeGenerator {
    type V = GeneratorState;

    closed spec fn view(&self) -> GeneratorState {
        GeneratorState {
            last_time_millis: self.last_time_millis as nat,
            worker_id: self.worker_id as nat,
            data_center_id: self.data_center_id as nat,
            sequence: self.sequence as nat,
            mode: match self.phase {
                Phase::Steady => Mode::Steady,
                Phase::Saturated => Mode::Saturated,
                Phase::RolledBack { moved_back_by } => Mode::RolledBack {
                    moved_back_by: moved_back_by as nat,
                },
            },
        }
    }
}

impl SnowflakeGenerator {
    #[verifier::type_invariant]
    spec fn well_formed(self) -> bool {
        self@.valid() && self.last_time_millis <= MAX_TIMESTAMP
    }

    /// A generator for the node `(worker_id, data_center_id)` whose clock
    /// stood at `now` when it was made. Both ids have to be 31 at most.
    pub fn new_at(worker_id: u8, data_center_id: u8, now: u128) -> (result: Result<
        SnowflakeGenerator,
        ConfigError,
    >)
        requires
            now <= MAX_TIMESTAMP,
        ensures
            match node_address_error(worker_id, data_center_id) {
                Some(error) => result == Err::<SnowflakeGenerator, ConfigError>(error),
                None => result is Ok && result->Ok_0@ == GeneratorState::initial(
                    worker_id as nat,
                    data_center_id as nat,
                    now as nat,
                ),
            },
            result matches Ok(generator) ==> generator@.valid(),
    {
        if worker_id > MAX_WORKER_ID {
            return Err(ConfigError::WorkerIdOutOfRange { worker_id });
        }
        if data_center_id > MAX_DATA_CENTER_ID {
            return Err(ConfigError::DataCenterIdOutOfRange { data_center_id });
        }
        Ok(
            SnowflakeGenerator {
                last_time_millis: now,
                worker_id,
                data_center_id,
                sequence: 0,
                phase: Phase::Steady,
            },
        )
    }

    /// A generator for the node `(worker_id, data_center_id)`, made at the
    /// system clock's present reading. Both ids have to be 31 at most.
    pub fn new(worker_id: u8, data_center_id: u8) -> (result: Result<
        SnowflakeGenerator,
        ConfigError,
    >)
        ensures
            match node_address_error(worker_id, data_center_id) {
                Some(error) => result == Err::<SnowflakeGenerator, ConfigError>(error),
                None => result is Ok && result->Ok_0@.last_time_millis <= MAX_TIMESTAMP
                    && result->Ok_0@ == GeneratorState::initial(
                    worker_id as nat,
                    data_center_id as nat,
                    result->Ok_0@.last_time_millis,
                ),
            },
            result matches Ok(generator) ==> generator@.valid(),
    {
        let now: u128 = SnowflakeGenerator::get_current_timestamp();
        SnowflakeGenerator::new_at(worker_id, data_center_id, now)
    }

    /// One step of the generator at the system clock's present reading: for
    /// some timestamp `now`, what `next_id_at` does at `now`. On `Step::Wait`
    /// the caller pauses for a fraction of a millisecond and steps again,
    /// without letting go of the generator in between.
    pub fn next_id(&mut self) -> (result: Result<Step, ClockError>)
        ensures
            exists|now: nat|
                now <= MAX_TIMESTAMP && final(self)@ == #[trigger] old(self)@.step(now)
                    && outcome_of(result) == old(self)@.outcome(now),
            final(self)@.valid(),
            result matches Ok(Step::Issued(id)) ==> issued_by(id, old(self)@, final(self)@),
            !(result matches Ok(Step::Issued(_))) ==> final(self)@.high_water_mark() == old(
                self,
            )@.high_water_mark(),
    {
        let now: u128 = SnowflakeGenerator::get_current_timestamp();
        self.next_id_at(now)
    }

    /// Reads the system clock as a timestamp: the milliseconds since the
    /// generator's epoch. A clock that stands before the epoch reads as 0.
    pub fn get_current_timestamp() -> (now: u128)
        ensures
            now <= MAX_TIMESTAMP,
    {
        let time = system_time_now();
        match since_unix_epoch(&time) {
            Ok(elapsed) => timestamp_from_unix_millis(whole_millis(&elapsed)),
            Err(_) => 0,
        }
    }

    /// One step of the generator at clock reading `now`.
    ///
    /// A clock behind the last timestamp is an error, and the end of this
    /// generator. At the last timestamp the sequence number goes up by one;
    /// after 4095 there is none left, and the step answers `Step::Wait` until
    /// the clock has passed that timestamp, wherever it stands meanwhile.
    /// At a later timestamp the sequence number starts again at 0.
    pub fn next_id_at(&mut self, now: u128) -> (result: Result<Step, ClockError>)
        requires
            now <= MAX_TIMESTAMP,
        ensures
            final(self)@ == old(self)@.step(now as nat),
            outcome_of(result) == old(self)@.outcome(now as nat),
            final(self)@.valid(),
            result matches Ok(Step::Issued(id)) ==> issued_by(id, old(self)@, final(self)@),
            !(result matches Ok(Step::Issued(_))) ==> final(self)@.high_water_mark() == old(
                self,
            )@.high_water_mark(),
    {
        proof {
            use_type_invariant(&*self);
            let before = self@;
            let after = before.step(now as nat);
            lemma_step(before, now as nat);
            lemma_pack_fields(
                after.last_time_millis,
                after.data_center_id,
                after.worker_id,
                after.sequence,
            );
            if before.outcome(now as nat) is Issued {
                lemma_fields_by_shifts(after.high_water_mark() as u128);
            }
        }
        match self.phase {
            Phase::RolledBack { moved_back_by } => Err(ClockError { moved_back_by }),
            Phase::Saturated => {
                if now > self.last_time_millis {
                    self.phase = Phase::Steady;
                    self.sequence = 0;
                    self.last_time_millis = now;
                    Ok(Step::Issued(compose(now, self.data_center_id, self.worker_id, 0)))
                } else {
                    Ok(Step::Wait)
                }
            },
            Phase::Steady => {
                if now < self.last_time_millis {
                    let moved_back_by: u128 = self.last_time_millis - now;
                    self.phase = Phase::RolledBack { moved_back_by };
                    Err(ClockError { moved_back_by })
                } else if now > self.last_time_millis {
                    self.sequence = 0;
                    self.last_time_millis = now;
                    Ok(Step::Issued(compose(now, self.data_center_id, self.worker_id, 0)))
                } else if self.sequence < MAX_SEQUENCE {
                    self.sequence = self.sequence + 1;
                    Ok(
                        Step::Issued(
                            compose(now, self.data_center_id, self.worker_id, self.sequence),
                        ),
                    )
                } else {
                    self.phase = Phase::Saturated;
                    Ok(Step::Wait)
                }
            },
        }
    }

    /// The worker id of the node.
    pub fn worker_id(&self) -> (worker_id: u8)
        ensures
            worker_id == self@.worker_id,
            worker_id <= MAX_WORKER_ID,
    {
        proof {
            use_type_invariant(self);
        }
        self.worker_id
    }

    /// The data-center id of the node.
    pub fn data_center_id(&self) -> (data_center_id: u8)
        ensures
            data_center_id == self@.data_center_id,
            data_center_id <= MAX_DATA_CENTER_ID,
    {
        proof {
            use_type_invariant(self);
        }
        self.data_center_id
    }

    /// The timestamp of the identifier issued last, or of the construction
    /// if none was issued yet.
    pub fn last_time_millis(&self) -> (timestamp: u128)
        ensures
            timestamp == self@.last_time_millis,
            timestamp <= MAX_TIMESTAMP,
    {
        proof {
            use_type_invariant(self);
        }
        self.last_time_millis
    }

    /// The sequence number of the identifier issued last.
    pub fn sequence(&self) -> (sequence: u16)
        ensures
            sequence == self@.sequence,
            sequence <= MAX_SEQUENCE,
    {
        proof {
            use_type_invariant(self);
        }
        self.sequence
    }
}

} // verus!
