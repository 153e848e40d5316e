use vstd::prelude::*;
use crate::search::{contains, is_substring};

verus! {

/// How far one seek moves, in nanoseconds.
pub const SEEK_STEP_NS: u64 = 5_000_000_000;

/// Where a forward seek from `pos` lands, in nanoseconds.
pub open spec fn forward_target(pos: int) -> int {
    if pos + SEEK_STEP_NS <= u64::MAX { pos + SEEK_STEP_NS } else { u64::MAX as int }
}

/// Where a backward seek from `pos` lands, in nanoseconds: never before the start.
pub open spec fn backward_target(pos: int) -> int {
    if pos > SEEK_STEP_NS { pos - SEEK_STEP_NS } else { 0 }
}

/// The position a forward seek from `pos_ns` asks for.
pub fn forward_position(pos_ns: u64) -> (r: u64)
    ensures
        r == forward_target(pos_ns as int),
{
    pos_ns.saturating_add(SEEK_STEP_NS)
}

/// The position a backward seek from `pos_ns` asks for.
pub fn backward_position(pos_ns: u64) -> (r: u64)
    ensures
        r == backward_target(pos_ns as int),
{
    if pos_ns > SEEK_STEP_NS {
        pos_ns - SEEK_STEP_NS
    } else {
        0
    }
}

/// A failed seek whose message says the end of the stream was reached is expected and
/// is not reported; every other failure is.
pub fn is_benign_seek_error(message: &str) -> (r: bool)
    ensures
        r == is_substring("end of stream"@, message@),
{
    contains(message, "end of stream")
}

/// A forward seek followed by a backward seek returns to the starting position, and a
/// backward seek from less than one step into the stream lands on its start.
pub proof fn lemma_seek_round_trip(pos: u64)
    ensures
        pos as int + SEEK_STEP_NS <= u64::MAX ==> backward_target(forward_target(pos as int)) == pos,
        pos < SEEK_STEP_NS ==> backward_target(pos as int) == 0,
        backward_target(pos as int) >= 0,
{
}

} // verus!
