//! The durable slot that holds the schedule.
//!
//! The slot holds the text of the schedule. Reading never fails: a slot that
//! is missing, or that holds what is no schedule, reads as the schedule of a
//! device that was never configured.

use crate::codec::{
    decode, decoded, encode, encoded, lemma_decoded_is_valid, lemma_round_trip,
};
use crate::schedule::Schedule;
use vstd::prelude::*;

verus! {

/// Why a schedule was not written.
#[derive(Clone, Copy, Debug, PartialEq, Eq, Structural)]
pub enum StoreError {
    /// The medium refused the write.
    IoFailure,
}

/// The schedule that a slot holds.
pub open spec fn stored_schedule(slot: Option<Seq<u8>>) -> Schedule {
    match slot {
        Some(raw) => match decoded(raw) {
            Ok(schedule) => schedule,
            Err(_) => Schedule::unset(),
        },
        None => Schedule::unset(),
    }
}

/// What a slot holds, as far as it was read.
pub open spec fn slot_bytes(slot: Option<&[u8]>) -> Option<Seq<u8>> {
    match slot {
        Some(raw) => Some(raw@),
        None => None,
    }
}

/// Reads the schedule from what the slot holds; `None` stands for a slot
/// that is missing or could not be read.
pub fn read_slot(slot: Option<&[u8]>) -> (schedule: Schedule)
    ensures
        schedule == stored_schedule(slot_bytes(slot)),
        schedule.valid(),
{
    match slot {
        Some(raw) => match decode(raw) {
            Ok(schedule) => schedule,
            Err(_) => Schedule::default(),
        },
        None => Schedule::default(),
    }
}

/// What to put into a slot at start: the text of the schedule of a device
/// that was never configured where the slot is missing, nothing where it is
/// there.
pub fn initial_slot(slot: Option<&[u8]>) -> (r: Option<Vec<u8>>)
    ensures
        match r {
            Some(bytes) => slot is None && bytes@ == encoded(Schedule::unset()),
            None => slot is Some,
        },
{
    match slot {
        Some(_) => None,
        None => Some(encode(&Schedule::default())),
    }
}

/// The result of a write, from what the medium said of it.
pub fn write_result(accepted: bool) -> (r: Result<(), StoreError>)
    ensures
        r == (if accepted {
            Ok::<(), StoreError>(())
        } else {
            Err::<(), StoreError>(StoreError::IoFailure)
        }),
{
    if accepted {
        Ok(())
    } else {
        Err(StoreError::IoFailure)
    }
}

/// A valid schedule that was written is the schedule that is read.
pub proof fn lemma_written_is_read(schedule: Schedule)
    requires
        schedule.valid(),
    ensures
        stored_schedule(Some(encoded(schedule))) == schedule,
{
    lemma_round_trip(schedule);
}

/// Whatever the slot holds, a valid schedule is read.
pub proof fn lemma_stored_is_valid(slot: Option<Seq<u8>>)
    ensures
        stored_schedule(slot).valid(),
{
    if slot is Some {
        lemma_decoded_is_valid(slot->Some_0);
    }
}

} // verus!
