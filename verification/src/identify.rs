//! Identification sequencing: one bounded attempt to match the finger on
//! the sensor against the stored template.
//!
//! Two valid orderings exist. The direct ordering invokes the firmware
//! identify call alone, which captures and matches internally. The bracketed
//! ordering first waits for a finger to be present, then identifies, then
//! waits for the finger to be lifted before returning, so a lingering finger
//! cannot corrupt the next capture cycle. Which to use is the caller's
//! policy; both are sequenced here.

use vstd::prelude::*;

use crate::status::BEP_RESULT_OK;
use crate::status::Error;
use crate::status::Step;

verus! {

/// Largest timeout the protocol's 16-bit timeout field can carry, in
/// milliseconds.
pub const IDENTIFY_TIMEOUT_MAX_MS: u32 = 65535;

/// Independent timeout for the trailing wait for finger removal in the
/// bracketed ordering, in milliseconds.
pub const FINGER_REMOVAL_TIMEOUT_MS: u32 = 5000;

/// The timeout actually handed to the firmware: the caller's request,
/// clamped to the protocol's 16-bit field.
pub open spec fn clamped_timeout(timeout_ms: u32) -> u16 {
    if timeout_ms > IDENTIFY_TIMEOUT_MAX_MS {
        65535u16
    } else {
        timeout_ms as u16
    }
}

/// Clamps a requested identify timeout to the protocol's 16-bit field. A
/// request above the representable range becomes the maximum; it is never
/// truncated silently.
pub fn clamp_identify_timeout(timeout_ms: u32) -> (r: u16)
    ensures
        r == clamped_timeout(timeout_ms),
{
    if timeout_ms > IDENTIFY_TIMEOUT_MAX_MS {
        65535u16
    } else {
        timeout_ms as u16
    }
}

/// Which call ordering an identification attempt uses.
#[derive(Clone, Copy, Debug, PartialEq, Eq, Structural)]
pub enum IdentifyOrdering {
    /// Invoke the firmware identify call alone.
    Direct,
    /// Wait for finger presence, identify, then wait for removal.
    Bracketed,
}

/// Where an identification attempt stands.
#[derive(Clone, Copy, Debug, PartialEq, Eq, Structural)]
pub enum IdentifyState {
    /// Waiting for a finger to be placed (bracketed ordering only).
    AwaitPresent,
    /// The identify call itself is outstanding.
    AwaitIdentify,
    /// Waiting for the finger to be lifted, carrying the match result.
    AwaitAbsent(bool),
    /// The attempt finished; the flag says whether the finger matched.
    Complete(bool),
    /// A firmware call failed with the carried error.
    Failed(Error),
}

/// The firmware call the application must make next for an identification
/// attempt.
#[derive(Clone, Copy, Debug, PartialEq, Eq, Structural)]
pub enum IdentifyAction {
    /// Wait for finger presence, bounded by the carried timeout in
    /// milliseconds.
    WaitFingerPresent(u16),
    /// Invoke the identify call with the carried timeout in milliseconds.
    IdentifyFinger(u16),
    /// Wait for finger removal, bounded by the carried timeout in
    /// milliseconds.
    WaitFingerAbsent(u32),
}

/// One identification attempt in flight: its ordering, its clamped timeout
/// and its current state.
#[derive(Clone, Copy, Debug, PartialEq, Eq, Structural)]
pub struct IdentifyFlow {
    /// The call ordering this attempt follows.
    pub ordering: IdentifyOrdering,
    /// The clamped timeout handed to the firmware, in milliseconds.
    pub timeout: u16,
    /// Where the attempt stands.
    pub state: IdentifyState,
}

/// The transition the flow takes when the outstanding call reports
/// `status`, with `matched` meaningful for the identify call itself. The OK
/// sentinel advances the ordering's sequence; any other status fails the
/// attempt with a communication error naming the step, whatever the matched
/// flag says. A finished state never changes.
pub open spec fn identify_next(
    ordering: IdentifyOrdering,
    state: IdentifyState,
    status: i32,
    matched: bool,
) -> IdentifyState {
    match state {
        IdentifyState::AwaitPresent => if status == BEP_RESULT_OK {
            IdentifyState::AwaitIdentify
        } else {
            IdentifyState::Failed(Error::Communication(Step::WaitFingerPresent, status))
        },
        IdentifyState::AwaitIdentify => if status == BEP_RESULT_OK {
            if ordering is Bracketed {
                IdentifyState::AwaitAbsent(matched)
            } else {
                IdentifyState::Complete(matched)
            }
        } else {
            IdentifyState::Failed(Error::Communication(Step::IdentifyFinger, status))
        },
        IdentifyState::AwaitAbsent(m) => if status == BEP_RESULT_OK {
            IdentifyState::Complete(m)
        } else {
            IdentifyState::Failed(Error::Communication(Step::WaitFingerAbsent, status))
        },
        IdentifyState::Complete(m) => IdentifyState::Complete(m),
        IdentifyState::Failed(e) => IdentifyState::Failed(e),
    }
}

/// The firmware call a flow asks for in its current state; a finished flow
/// asks for none.
pub open spec fn identify_action_of(flow: IdentifyFlow) -> Option<IdentifyAction> {
    match flow.state {
        IdentifyState::AwaitPresent => Some(IdentifyAction::WaitFingerPresent(flow.timeout)),
        IdentifyState::AwaitIdentify => Some(IdentifyAction::IdentifyFinger(flow.timeout)),
        IdentifyState::AwaitAbsent(_) => Some(
            IdentifyAction::WaitFingerAbsent(FINGER_REMOVAL_TIMEOUT_MS),
        ),
        IdentifyState::Complete(_) => None,
        IdentifyState::Failed(_) => None,
    }
}

impl IdentifyFlow {
    /// The firmware call to make next, or nothing once the attempt is
    /// finished.
    pub fn current_action(&self) -> (r: Option<IdentifyAction>)
        ensures
            r == identify_action_of(*self),
    {
        match self.state {
            IdentifyState::AwaitPresent => Some(IdentifyAction::WaitFingerPresent(self.timeout)),
            IdentifyState::AwaitIdentify => Some(IdentifyAction::IdentifyFinger(self.timeout)),
            IdentifyState::AwaitAbsent(_) => Some(
                IdentifyAction::WaitFingerAbsent(FINGER_REMOVAL_TIMEOUT_MS),
            ),
            IdentifyState::Complete(_) => None,
            IdentifyState::Failed(_) => None,
        }
    }

    /// Feeds the outcome of the outstanding firmware call into the flow;
    /// `matched` is read only by the identify step itself. The ordering and
    /// the clamped timeout never change.
    pub fn step(&mut self, status: i32, matched: bool)
        ensures
            final(self).ordering == old(self).ordering,
            final(self).timeout == old(self).timeout,
            final(self).state == identify_next(old(self).ordering, old(self).state, status, matched),
    {
        let next: IdentifyState = match self.state {
            IdentifyState::AwaitPresent => if status == BEP_RESULT_OK {
                IdentifyState::AwaitIdentify
            } else {
                IdentifyState::Failed(Error::Communication(Step::WaitFingerPresent, status))
            },
            IdentifyState::AwaitIdentify => if status == BEP_RESULT_OK {
                match self.ordering {
                    IdentifyOrdering::Bracketed => IdentifyState::AwaitAbsent(matched),
                    IdentifyOrdering::Direct => IdentifyState::Complete(matched),
                }
            } else {
                IdentifyState::Failed(Error::Communication(Step::IdentifyFinger, status))
            },
            IdentifyState::AwaitAbsent(m) => if status == BEP_RESULT_OK {
                IdentifyState::Complete(m)
            } else {
                IdentifyState::Failed(Error::Communication(Step::WaitFingerAbsent, status))
            },
            IdentifyState::Complete(m) => IdentifyState::Complete(m),
            IdentifyState::Failed(e) => IdentifyState::Failed(e),
        };
        self.state = next;
    }

    /// The attempt's result once it has finished: whether the finger
    /// matched, or the classified error. Nothing while a call is still
    /// outstanding.
    pub fn outcome(&self) -> (r: Option<Result<bool, Error>>)
        ensures
            self.state matches IdentifyState::Complete(m) ==> r == Some(Ok::<bool, Error>(m)),
            self.state matches IdentifyState::Failed(e) ==> r == Some(Err::<bool, Error>(e)),
            (self.state is AwaitPresent || self.state is AwaitIdentify || self.state is AwaitAbsent)
                ==> r is None,
    {
        match self.state {
            IdentifyState::Complete(m) => Some(Ok(m)),
            IdentifyState::Failed(e) => Some(Err(e)),
            _ => None,
        }
    }
}

/// Law: the match flag the identify call reports is the one the finished
/// attempt yields. In the direct ordering it completes the attempt at once;
/// in the bracketed ordering it is carried unchanged through the trailing
/// removal wait, whatever flag that wait reports. A non-OK identify status
/// fails the attempt whatever the flag says.
pub proof fn lemma_match_flag_reaches_the_result(matched: bool, later_flag: bool, bad: i32)
    requires
        bad != BEP_RESULT_OK,
    ensures
        identify_next(IdentifyOrdering::Direct, IdentifyState::AwaitIdentify, BEP_RESULT_OK, matched)
            == IdentifyState::Complete(matched),
        identify_next(
            IdentifyOrdering::Bracketed,
            IdentifyState::AwaitIdentify,
            BEP_RESULT_OK,
            matched,
        ) == IdentifyState::AwaitAbsent(matched),
        identify_next(
            IdentifyOrdering::Bracketed,
            IdentifyState::AwaitAbsent(matched),
            BEP_RESULT_OK,
            later_flag,
        ) == IdentifyState::Complete(matched),
        identify_next(IdentifyOrdering::Bracketed, IdentifyState::AwaitIdentify, bad, matched)
            == IdentifyState::Failed(Error::Communication(Step::IdentifyFinger, bad)),
{
}

} // verus!
