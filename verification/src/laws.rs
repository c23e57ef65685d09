//! What holds of every run of a generator.
//!
//! A run is a valid state and the sequence of clock readings at which it is
//! stepped, whoever makes the steps: calls that take turns on one generator,
//! from one caller or from many, are one such sequence.

use vstd::prelude::*;
use crate::layout::{
    data_center_id_of,
    lemma_pack_fields,
    lemma_pack_ordered,
    sequence_of,
    timestamp_of,
    worker_id_of,
    MAX_SEQUENCE,
};
use crate::model::{GeneratorState, Mode, Outcome};

verus! {

/// A step keeps a valid state valid and its node address unchanged. Where it
/// issues an identifier, that identifier is above the state's high-water mark
/// and becomes the new one, stamped with the clock reading; where it issues
/// none, the high-water mark stays.
pub proof fn lemma_step(s: GeneratorState, now: nat)
    requires
        s.valid(),
    ensures
        s.step(now).valid(),
        s.step(now).worker_id == s.worker_id,
        s.step(now).data_center_id == s.data_center_id,
        s.outcome(now) matches Outcome::Issued(id) ==> {
            &&& s.high_water_mark() < id
            &&& id == s.step(now).high_water_mark()
            &&& s.step(now).last_time_millis == now
            &&& s.step(now).mode is Steady
        },
        !(s.outcome(now) is Issued) ==> {
            &&& s.step(now).last_time_millis == s.last_time_millis
            &&& s.step(now).sequence == s.sequence
        },
        s.last_time_millis <= s.step(now).last_time_millis,
{
    let next = s.step(now);
    lemma_pack_ordered(
        s.last_time_millis,
        s.sequence,
        next.last_time_millis,
        next.sequence,
        s.data_center_id,
        s.worker_id,
    );
}

/// Every state of a run is valid and has the node address of the first.
pub proof fn lemma_run(s: GeneratorState, clock: Seq<nat>)
    requires
        s.valid(),
    ensures
        s.run(clock).valid(),
        s.run(clock).worker_id == s.worker_id,
        s.run(clock).data_center_id == s.data_center_id,
    decreases clock.len(),
{
    if clock.len() > 0 {
        lemma_run(s, clock.drop_last());
        lemma_step(s.run(clock.drop_last()), clock.last());
    }
}

/// The state after `k + 1` readings is the state after `k` readings, stepped
/// at reading number `k`.
pub proof fn lemma_run_unfold(s: GeneratorState, clock: Seq<nat>, k: int)
    requires
        0 <= k < clock.len(),
    ensures
        s.run(clock.take(k + 1)) == s.run(clock.take(k)).step(clock[k]),
{
    assert(clock.take(k + 1).drop_last() =~= clock.take(k));
}

/// Neither the last timestamp nor the high-water mark ever falls along a run.
pub proof fn lemma_high_water_mark_rises(s: GeneratorState, clock: Seq<nat>, a: int, b: int)
    requires
        s.valid(),
        0 <= a <= b <= clock.len(),
    ensures
        s.run(clock.take(a)).last_time_millis <= s.run(clock.take(b)).last_time_millis,
        s.run(clock.take(a)).high_water_mark() <= s.run(clock.take(b)).high_water_mark(),
    decreases b - a,
{
    if a < b {
        lemma_high_water_mark_rises(s, clock, a, b - 1);
        lemma_run(s, clock.take(b - 1));
        lemma_run_unfold(s, clock, b - 1);
        lemma_step(s.run(clock.take(b - 1)), clock[b - 1]);
    }
}

/// Every identifier that a run issues carries the node address that the
/// generator was made with, the clock reading of its step as its timestamp,
/// and the sequence number that the state then holds.
pub proof fn lemma_issued_fields(s: GeneratorState, clock: Seq<nat>, k: int)
    requires
        s.valid(),
        0 <= k < clock.len(),
        s.outcome_at(clock, k) is Issued,
    ensures
        worker_id_of(s.outcome_at(clock, k)->Issued_0) == s.worker_id,
        data_center_id_of(s.outcome_at(clock, k)->Issued_0) == s.data_center_id,
        timestamp_of(s.outcome_at(clock, k)->Issued_0) == clock[k],
        sequence_of(s.outcome_at(clock, k)->Issued_0) == s.run(clock.take(k + 1)).sequence,
        s.outcome_at(clock, k)->Issued_0 == s.run(clock.take(k + 1)).high_water_mark(),
{
    let before = s.run(clock.take(k));
    lemma_run(s, clock.take(k));
    lemma_run_unfold(s, clock, k);
    lemma_step(before, clock[k]);
    let after = before.step(clock[k]);
    lemma_pack_fields(
        after.last_time_millis,
        after.data_center_id,
        after.worker_id,
        after.sequence,
    );
}

/// Of two identifiers that one run issues, the later is the greater: the
/// identifiers of a generator are strictly increasing in the order of issue.
pub proof fn lemma_ids_strictly_increase(s: GeneratorState, clock: Seq<nat>, i: int, j: int)
    requires
        s.valid(),
        0 <= i < j < clock.len(),
        s.outcome_at(clock, i) is Issued,
        s.outcome_at(clock, j) is Issued,
    ensures
        s.outcome_at(clock, i)->Issued_0 < s.outcome_at(clock, j)->Issued_0,
{
    lemma_issued_fields(s, clock, i);
    lemma_high_water_mark_rises(s, clock, i + 1, j);
    lemma_run(s, clock.take(j));
    lemma_step(s.run(clock.take(j)), clock[j]);
}

/// No identifier is issued twice in one run.
pub proof fn lemma_ids_pairwise_distinct(s: GeneratorState, clock: Seq<nat>, i: int, j: int)
    requires
        s.valid(),
        0 <= i < clock.len(),
        0 <= j < clock.len(),
        i != j,
        s.outcome_at(clock, i) is Issued,
        s.outcome_at(clock, j) is Issued,
    ensures
        s.outcome_at(clock, i)->Issued_0 != s.outcome_at(clock, j)->Issued_0,
{
    if i < j {
        lemma_ids_strictly_increase(s, clock, i, j);
    } else {
        lemma_ids_strictly_increase(s, clock, j, i);
    }
}

/// A generator that is not at its end and sees the clock at a later
/// millisecond than its last issues the identifier of that millisecond with
/// sequence number 0.
pub proof fn lemma_later_millisecond_restarts_sequence(s: GeneratorState, now: nat)
    requires
        s.valid(),
        !(s.mode is RolledBack),
        now > s.last_time_millis,
    ensures
        s.outcome(now) == Outcome::Issued(s.id_for(now, 0)),
        s.step(now).sequence == 0,
        s.step(now).last_time_millis == now,
{
}

/// Of two identifiers issued one after the other in the same millisecond, the
/// second is the first plus one: only the sequence number has gone up.
pub proof fn lemma_same_millisecond_increments(s: GeneratorState, now: nat)
    requires
        s.valid(),
        s.outcome(now) is Issued,
        s.step(now).outcome(now) is Issued,
    ensures
        s.step(now).outcome(now)->Issued_0 == s.outcome(now)->Issued_0 + 1,
        s.step(now).step(now).sequence == s.step(now).sequence + 1,
{
    lemma_step(s, now);
}

/// How many identifiers with timestamp `t` a state can still issue.
pub open spec fn room_at(s: GeneratorState, t: nat) -> nat {
    if s.mode is RolledBack || t < s.last_time_millis {
        0
    } else if t > s.last_time_millis {
        MAX_SEQUENCE as nat + 1
    } else if s.mode is Saturated {
        0
    } else {
        (MAX_SEQUENCE - s.sequence) as nat
    }
}

/// A run issues no more identifiers with timestamp `t` than the state it
/// starts from has room for, and uses up that room as it issues them.
pub proof fn lemma_issued_within_room(s: GeneratorState, clock: Seq<nat>, t: nat)
    requires
        s.valid(),
    ensures
        s.issued_at(clock, t) + room_at(s.run(clock), t) <= room_at(s, t),
    decreases clock.len(),
{
    if clock.len() > 0 {
        let front = clock.drop_last();
        lemma_issued_within_room(s, front, t);
        lemma_run(s, front);
        lemma_step(s.run(front), clock.last());
    }
}

/// Within a single millisecond a generator issues at most 4096 identifiers,
/// however often it is stepped and whatever the clock reads in between: to
/// issue more it has to see a later millisecond.
pub proof fn lemma_sequence_bound(s: GeneratorState, clock: Seq<nat>, t: nat)
    requires
        s.valid(),
    ensures
        s.issued_at(clock, t) <= 4096,
{
    lemma_issued_within_room(s, clock, t);
}

/// A generator that has used the last sequence number of its millisecond
/// issues nothing while the clock has not passed that millisecond, and goes
/// on with sequence number 0 once it has.
pub proof fn lemma_exhausted_waits(s: GeneratorState, now: nat)
    requires
        s.valid(),
        !(s.mode is RolledBack),
        s.sequence == MAX_SEQUENCE,
        now == s.last_time_millis,
    ensures
        s.outcome(now) == Outcome::Wait,
        s.step(now).mode is Saturated,
        forall|later: nat| later <= now ==> #[trigger] s.step(now).outcome(later) == Outcome::Wait,
        forall|later: nat|
            later > now ==> #[trigger] s.step(now).outcome(later) == Outcome::Issued(
                s.id_for(later, 0),
            ),
{
}

/// Generators of different nodes never issue the same identifier, whatever
/// their clocks read.
pub proof fn lemma_distinct_nodes_never_collide(
    a: GeneratorState,
    clock_a: Seq<nat>,
    i: int,
    b: GeneratorState,
    clock_b: Seq<nat>,
    j: int,
)
    requires
        a.valid(),
        b.valid(),
        a.worker_id != b.worker_id || a.data_center_id != b.data_center_id,
        0 <= i < clock_a.len(),
        0 <= j < clock_b.len(),
        a.outcome_at(clock_a, i) is Issued,
        b.outcome_at(clock_b, j) is Issued,
    ensures
        a.outcome_at(clock_a, i)->Issued_0 != b.outcome_at(clock_b, j)->Issued_0,
{
    lemma_issued_fields(a, clock_a, i);
    lemma_issued_fields(b, clock_b, j);
}

/// After an identifier was issued at time `t`, a step at an earlier time
/// fails with the distance to `t` and issues nothing.
pub proof fn lemma_rollback_detected(s: GeneratorState, t: nat, earlier: nat)
    requires
        s.valid(),
        s.outcome(t) is Issued,
        earlier < t,
    ensures
        s.step(t).outcome(earlier) == Outcome::Failed((t - earlier) as nat),
        s.step(t).step(earlier).mode == (Mode::RolledBack { moved_back_by: (t - earlier) as nat }),
{
    lemma_step(s, t);
}

/// Once the clock was seen going backwards, every later step fails with the
/// same error, whatever the clock reads, and the state no longer changes.
pub proof fn lemma_rolled_back_is_final(s: GeneratorState, clock: Seq<nat>, k: int)
    requires
        s.mode is RolledBack,
        0 <= k < clock.len(),
    ensures
        s.run(clock) == s,
        s.outcome_at(clock, k) == Outcome::Failed(s.mode->moved_back_by),
{
    lemma_rolled_back_stays(s, clock.take(k));
    lemma_rolled_back_stays(s, clock);
}

/// A rolled-back state runs to itself.
pub proof fn lemma_rolled_back_stays(s: GeneratorState, clock: Seq<nat>)
    requires
        s.mode is RolledBack,
    ensures
        s.run(clock) == s,
    decreases clock.len(),
{
    if clock.len() > 0 {
        lemma_rolled_back_stays(s, clock.drop_last());
    }
}

} // verus!
