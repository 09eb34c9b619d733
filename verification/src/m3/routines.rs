//! What the tools know of mined routines.

use vstd::prelude::*;

use crate::ieee::Real64;
use crate::text::optional_view;

verus! {

/// Where a routine stands in the operator's review.
#[derive(Clone, Copy, Debug, PartialEq, Eq, Structural)]
pub enum RoutineLifecycle {
    Candidate,
    Confirmed,
    Disabled,
    Archived,
}

/// Whether a routine is out of use.
pub open spec fn is_retired(lifecycle: RoutineLifecycle) -> bool {
    lifecycle is Disabled || lifecycle is Archived
}

/// Whether a routine is out of use.
pub fn retired(lifecycle: RoutineLifecycle) -> (r: bool)
    ensures
        r == is_retired(lifecycle),
{
    matches!(lifecycle, RoutineLifecycle::Disabled | RoutineLifecycle::Archived)
}

/// How a surfaced suggestion ended, as fed back to the routine.
#[derive(Clone, Copy, Debug, PartialEq, Eq, Structural)]
pub enum RoutineFeedbackOutcome {
    IgnoredTimeout,
    Abandoned,
}

/// The days of the week on which a routine runs; day 0 is Monday.
#[derive(Clone, Debug, PartialEq, Eq)]
pub enum RoutineDowClass {
    Daily,
    Weekdays,
    Weekend,
    Days { days: Vec<u8> },
}

/// A routine that the operator appears to be executing. The steps that remain are carried along as
/// `S`s, and what else the matcher says of it as an `E`.
#[derive(Debug, PartialEq, Eq)]
pub struct IntentCandidate<S, E> {
    pub routine_id: String,
    pub label: Option<String>,
    pub lifecycle: RoutineLifecycle,
    pub confidence: Real64,
    pub matched_prefix_len: usize,
    pub total_steps: usize,
    pub remaining_steps: Vec<S>,
    pub last_matched_end_ts_ns: u64,
    pub evidence: E,
}

/// What decisions read of an intent candidate: its texts as sequences of characters, the number of
/// its remaining steps, and nothing of the evidence.
#[verifier::ext_equal]
pub struct IntentCandidateView {
    pub routine_id: Seq<char>,
    pub label: Option<Seq<char>>,
    pub lifecycle: RoutineLifecycle,
    pub confidence: Real64,
    pub matched_prefix_len: usize,
    pub total_steps: usize,
    pub remaining_step_count: nat,
    pub last_matched_end_ts_ns: u64,
}

impl<S, E> View for IntentCandidate<S, E> {
    type V = IntentCandidateView;

    open spec fn view(&self) -> IntentCandidateView {
        IntentCandidateView {
            routine_id: self.routine_id@,
            label: optional_view(self.label),
            lifecycle: self.lifecycle,
            confidence: self.confidence,
            matched_prefix_len: self.matched_prefix_len,
            total_steps: self.total_steps,
            remaining_step_count: self.remaining_steps@.len(),
            last_matched_end_ts_ns: self.last_matched_end_ts_ns,
        }
    }
}

/// A count cut down to 32 bits.
pub open spec fn count32(n: int) -> u32 {
    if n <= u32::MAX {
        n as u32
    } else {
        u32::MAX
    }
}

/// Cuts a count down to 32 bits.
pub fn to_count32(n: usize) -> (r: u32)
    ensures
        r == count32(n as int),
{
    if n <= u32::MAX as usize {
        n as u32
    } else {
        u32::MAX
    }
}

/// A routine is retired once it is disabled or archived, and only then; and a count is itself as long as
/// it fits.
pub proof fn law_retired_routines_are_disabled_or_archived(
    lifecycle: RoutineLifecycle,
    gone: bool,
    n: usize,
    count: u32,
)
    requires
        call_ensures(retired, (lifecycle,), gone),
        call_ensures(to_count32, (n,), count),
    ensures
        lifecycle is Candidate || lifecycle is Confirmed ==> !gone,
        lifecycle is Disabled || lifecycle is Archived ==> gone,
        n <= 0xffff_ffff ==> count == n,
        n > 0xffff_ffff ==> count == 0xffff_ffff,
{
}

} // verus!
