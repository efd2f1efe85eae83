//! The record of what the driver has done to the hardware.
//!
//! Every operation the driver completes on one of its lines, on its timer or
//! on its bus is an [`Event`]. An operation of the driver is described by its
//! *plan*, the events it goes through when nothing fails; [`performed`] says
//! what the record holds afterwards, whether or not something failed.

use vstd::prelude::*;
use crate::error::DisplayError;

verus! {

/// One completed operation on the hardware.
pub enum Event {
    /// The chip-select line was driven high or low.
    ChipSelect { high: bool },
    /// The reset line was driven high or low.
    Reset { high: bool },
    /// The timer waited `ms` milliseconds.
    Delay { ms: u32 },
    /// The bus carried `opcode`, framed as a command.
    Command { opcode: u8 },
    /// The bus carried `bytes`, framed as data, in one burst.
    Data { bytes: Seq<u8> },
}

/// The error that is reported when `event` cannot be completed. Waiting
/// cannot fail.
pub open spec fn fault_of(event: Event) -> Option<DisplayError> {
    match event {
        Event::ChipSelect { .. } => Some(DisplayError::ChipSelect),
        Event::Reset { .. } => Some(DisplayError::Reset),
        Event::Delay { .. } => None,
        Event::Command { .. } => Some(DisplayError::Bus),
        Event::Data { .. } => Some(DisplayError::Bus),
    }
}

/// How a record grows under an operation with the plan `plan`.
///
/// If the operation ran to its end, the record has grown by the whole plan.
/// If not, it has grown by the steps before the first one that failed, and
/// that step is not recorded.
pub open spec fn advanced<T>(before: Seq<T>, plan: Seq<T>, after: Seq<T>, complete: bool) -> bool {
    let done = after.len() - before.len();
    if complete {
        after == before + plan
    } else {
        0 <= done < plan.len() && after == before + plan.take(done)
    }
}

/// What an operation of the driver with the plan `plan` leaves behind.
///
/// If it returned `Ok`, the record has grown by the whole plan. If it
/// returned `Err(e)`, the record has grown by the events before the first
/// one that failed, that event is not recorded, and `e` names it.
pub open spec fn performed(
    before: Seq<Event>,
    plan: Seq<Event>,
    after: Seq<Event>,
    result: Result<(), DisplayError>,
) -> bool {
    &&& advanced(before, plan, after, result is Ok)
    &&& result matches Err(e) ==> fault_of(plan[after.len() - before.len()]) == Some(e)
}

/// An operation that stopped within the first part of a plan stopped within
/// the plan, at the same step.
pub proof fn advanced_stopped_early<T>(before: Seq<T>, first: Seq<T>, rest: Seq<T>, after: Seq<T>)
    requires
        advanced(before, first, after, false),
    ensures
        advanced(before, first + rest, after, false),
        (first + rest)[after.len() - before.len()] == first[after.len() - before.len()],
{
    let done = after.len() - before.len();
    assert((first + rest).take(done) =~= first.take(done));
}

/// An operation that went through the first part of a plan and then
/// advanced through the rest advanced through the plan.
pub proof fn advanced_continued<T>(
    before: Seq<T>,
    first: Seq<T>,
    rest: Seq<T>,
    after: Seq<T>,
    complete: bool,
)
    requires
        advanced(before + first, rest, after, complete),
    ensures
        advanced(before, first + rest, after, complete),
        !complete ==> (first + rest)[after.len() - before.len()] == rest[after.len() - (before
            + first).len()],
{
    if complete {
        assert((before + first) + rest =~= before + (first + rest));
    } else {
        let done = after.len() - (before + first).len();
        assert((first + rest).take(first.len() + done) =~= first + rest.take(done));
        assert((before + first) + rest.take(done) =~= before + (first + rest.take(done)));
    }
}

/// An operation of the driver that stopped within the first part of a plan
/// stopped within the plan.
pub proof fn stopped_early(
    before: Seq<Event>,
    first: Seq<Event>,
    rest: Seq<Event>,
    after: Seq<Event>,
    e: DisplayError,
)
    requires
        performed(before, first, after, Err(e)),
    ensures
        performed(before, first + rest, after, Err(e)),
{
    advanced_stopped_early(before, first, rest, after);
}

/// An operation of the driver that went through the first part of a plan
/// and then performed the rest performed the plan.
pub proof fn continued(
    before: Seq<Event>,
    first: Seq<Event>,
    rest: Seq<Event>,
    after: Seq<Event>,
    result: Result<(), DisplayError>,
)
    requires
        performed(before + first, rest, after, result),
    ensures
        performed(before, first + rest, after, result),
{
    advanced_continued(before, first, rest, after, result is Ok);
}

/// A sequence mapped piecewise and joined is its front mapped and joined,
/// followed by its back mapped and joined.
pub proof fn flat_map_split<A, B>(s: Seq<A>, f: spec_fn(A) -> Seq<B>, i: int)
    requires
        0 <= i <= s.len(),
    ensures
        s.flat_map(f) == s.take(i).flat_map(f) + s.skip(i).flat_map(f),
{
    vstd::seq_lib::lemma_flatten_concat(s.take(i).map_values(f), s.skip(i).map_values(f));
    assert(s.map_values(f) =~= s.take(i).map_values(f) + s.skip(i).map_values(f));
}

} // verus!
