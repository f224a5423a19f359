//! Enrollment sequencing: the strict order of firmware calls that stores a
//! fingerprint template in the sensor's single slot.
//!
//! Two policies exist as distinct operations. The unconditional policy
//! always enrolls: guided capture, save under the fixed slot id, a re-query
//! of the count to confirm the save took, a bounded wait for the finger to
//! be lifted, and a short settle delay. The conditional policy first queries
//! the template count and treats "already enrolled" as terminal success;
//! otherwise it calibrates, soft-resets, captures and saves, in that strict
//! order — calibration and reset are required precursors to a reliable
//! capture and must not be skipped or reordered.

use vstd::prelude::*;

use crate::status::BEP_RESULT_OK;
use crate::status::Error;
use crate::status::Step;

verus! {

/// The fixed slot id the template is saved under.
pub const ENROLL_TEMPLATE_ID: u16 = 1;

/// Timeout of the trailing wait for the finger to be lifted after an
/// unconditional enrollment, in milliseconds.
pub const ENROLL_REMOVAL_TIMEOUT_MS: u32 = 5000;

/// Settle delay after an unconditional enrollment, in milliseconds, to let
/// the module stabilize before any subsequent operation.
pub const ENROLL_SETTLE_DELAY_MS: u32 = 150;

/// Which enrollment policy a flow follows.
#[derive(Clone, Copy, Debug, PartialEq, Eq, Structural)]
pub enum EnrollVariant {
    /// Always enroll; capture, save, confirm, wait for removal, settle.
    Unconditional,
    /// Query the count first and succeed at once if a template exists;
    /// otherwise calibrate, soft-reset, capture and save.
    Conditional,
}

/// Where an enrollment flow stands.
#[derive(Clone, Copy, Debug, PartialEq, Eq, Structural)]
pub enum EnrollState {
    /// The template-count query is outstanding (conditional start).
    AwaitCount,
    /// The sensor calibration is outstanding.
    AwaitCalibrate,
    /// The firmware soft reset is outstanding.
    AwaitReset,
    /// The guided capture is outstanding (unconditional start).
    AwaitCapture,
    /// The template save is outstanding.
    AwaitSave,
    /// The confirming count re-query is outstanding.
    AwaitConfirm,
    /// The bounded wait for the finger to be lifted is outstanding.
    AwaitRemoval,
    /// The settle delay is outstanding.
    AwaitSettle,
    /// The enrollment finished successfully.
    Complete,
    /// A sub-step failed with the carried error.
    Failed(Error),
}

/// The call or wait the application must perform next for an enrollment.
#[derive(Clone, Copy, Debug, PartialEq, Eq, Structural)]
pub enum EnrollAction {
    /// Query the firmware for the number of stored templates.
    GetTemplateCount,
    /// Calibrate the sensor.
    CalibrateSensor,
    /// Soft-reset the firmware.
    SoftReset,
    /// Run the guided capture, which prompts for repeated finger placement.
    CaptureFinger,
    /// Save the captured template under the carried slot id.
    SaveTemplate(u16),
    /// Wait for the finger to be lifted, bounded by the carried timeout in
    /// milliseconds.
    WaitFingerAbsent(u32),
    /// Sleep for the carried settle delay in milliseconds.
    Settle(u32),
}

/// One enrollment in flight: its policy and its current state.
#[derive(Clone, Copy, Debug, PartialEq, Eq, Structural)]
pub struct EnrollFlow {
    /// The policy this enrollment follows.
    pub variant: EnrollVariant,
    /// Where the enrollment stands.
    pub state: EnrollState,
}

/// The transition an enrollment takes when the outstanding call reports
/// `status`, with `count` meaningful for the two count queries. The first
/// failing sub-step aborts the remaining steps with an enrollment error
/// naming it; in particular no step after a failed capture is ever reached,
/// so no partial template id is assumed valid. A count query that reports a
/// stored template ends the conditional policy as terminal success. The
/// settle delay cannot fail; a finished state never changes.
pub open spec fn enroll_next(
    variant: EnrollVariant,
    state: EnrollState,
    status: i32,
    count: u16,
) -> EnrollState {
    match state {
        EnrollState::AwaitCount => if status != BEP_RESULT_OK {
            EnrollState::Failed(Error::Enrollment(Step::TemplateGetCount, status))
        } else if count > 0 {
            EnrollState::Complete
        } else {
            EnrollState::AwaitCalibrate
        },
        EnrollState::AwaitCalibrate => if status == BEP_RESULT_OK {
            EnrollState::AwaitReset
        } else {
            EnrollState::Failed(Error::Enrollment(Step::SensorCalibrate, status))
        },
        EnrollState::AwaitReset => if status == BEP_RESULT_OK {
            EnrollState::AwaitCapture
        } else {
            EnrollState::Failed(Error::Enrollment(Step::SwReset, status))
        },
        EnrollState::AwaitCapture => if status == BEP_RESULT_OK {
            EnrollState::AwaitSave
        } else {
            EnrollState::Failed(Error::Enrollment(Step::EnrollFinger, status))
        },
        EnrollState::AwaitSave => if status != BEP_RESULT_OK {
            EnrollState::Failed(Error::Enrollment(Step::TemplateSave, status))
        } else if variant is Conditional {
            EnrollState::Complete
        } else {
            EnrollState::AwaitConfirm
        },
        EnrollState::AwaitConfirm => if status != BEP_RESULT_OK {
            EnrollState::Failed(Error::Enrollment(Step::TemplateGetCount, status))
        } else if count == 0 {
            EnrollState::Failed(Error::Enrollment(Step::ConfirmSave, status))
        } else {
            EnrollState::AwaitRemoval
        },
        EnrollState::AwaitRemoval => if status == BEP_RESULT_OK {
            EnrollState::AwaitSettle
        } else {
            EnrollState::Failed(Error::Enrollment(Step::WaitFingerAbsent, status))
        },
        EnrollState::AwaitSettle => EnrollState::Complete,
        EnrollState::Complete => EnrollState::Complete,
        EnrollState::Failed(e) => EnrollState::Failed(e),
    }
}

/// The call or wait a flow asks for in its current state; a finished flow
/// asks for none — in particular, no capture and no save follow a skip or a
/// failure.
pub open spec fn enroll_action_of(flow: EnrollFlow) -> Option<EnrollAction> {
    match flow.state {
        EnrollState::AwaitCount => Some(EnrollAction::GetTemplateCount),
        EnrollState::AwaitCalibrate => Some(EnrollAction::CalibrateSensor),
        EnrollState::AwaitReset => Some(EnrollAction::SoftReset),
        EnrollState::AwaitCapture => Some(EnrollAction::CaptureFinger),
        EnrollState::AwaitSave => Some(EnrollAction::SaveTemplate(ENROLL_TEMPLATE_ID)),
        EnrollState::AwaitConfirm => Some(EnrollAction::GetTemplateCount),
        EnrollState::AwaitRemoval => Some(EnrollAction::WaitFingerAbsent(ENROLL_REMOVAL_TIMEOUT_MS)),
        EnrollState::AwaitSettle => Some(EnrollAction::Settle(ENROLL_SETTLE_DELAY_MS)),
        EnrollState::Complete => None,
        EnrollState::Failed(_) => None,
    }
}

impl EnrollFlow {
    /// The call or wait to perform next, or nothing once the enrollment is
    /// finished.
    pub fn current_action(&self) -> (r: Option<EnrollAction>)
        ensures
            r == enroll_action_of(*self),
    {
        match self.state {
            EnrollState::AwaitCount => Some(EnrollAction::GetTemplateCount),
            EnrollState::AwaitCalibrate => Some(EnrollAction::CalibrateSensor),
            EnrollState::AwaitReset => Some(EnrollAction::SoftReset),
            EnrollState::AwaitCapture => Some(EnrollAction::CaptureFinger),
            EnrollState::AwaitSave => Some(EnrollAction::SaveTemplate(ENROLL_TEMPLATE_ID)),
            EnrollState::AwaitConfirm => Some(EnrollAction::GetTemplateCount),
            EnrollState::AwaitRemoval => Some(
                EnrollAction::WaitFingerAbsent(ENROLL_REMOVAL_TIMEOUT_MS),
            ),
            EnrollState::AwaitSettle => Some(EnrollAction::Settle(ENROLL_SETTLE_DELAY_MS)),
            EnrollState::Complete => None,
            EnrollState::Failed(_) => None,
        }
    }

    /// Feeds the outcome of the outstanding call into the flow; `count` is
    /// read only by the two count queries. The policy never changes.
    pub fn step(&mut self, status: i32, count: u16)
        ensures
            final(self).variant == old(self).variant,
            final(self).state == enroll_next(old(self).variant, old(self).state, status, count),
    {
        let next: EnrollState = match self.state {
            EnrollState::AwaitCount => if status != BEP_RESULT_OK {
                EnrollState::Failed(Error::Enrollment(Step::TemplateGetCount, status))
            } else if count > 0 {
                EnrollState::Complete
            } else {
                EnrollState::AwaitCalibrate
            },
            EnrollState::AwaitCalibrate => if status == BEP_RESULT_OK {
                EnrollState::AwaitReset
            } else {
                EnrollState::Failed(Error::Enrollment(Step::SensorCalibrate, status))
            },
            EnrollState::AwaitReset => if status == BEP_RESULT_OK {
                EnrollState::AwaitCapture
            } else {
                EnrollState::Failed(Error::Enrollment(Step::SwReset, status))
            },
            EnrollState::AwaitCapture => if status == BEP_RESULT_OK {
                EnrollState::AwaitSave
            } else {
                EnrollState::Failed(Error::Enrollment(Step::EnrollFinger, status))
            },
            EnrollState::AwaitSave => if status != BEP_RESULT_OK {
                EnrollState::Failed(Error::Enrollment(Step::TemplateSave, status))
            } else {
                match self.variant {
                    EnrollVariant::Conditional => EnrollState::Complete,
                    EnrollVariant::Unconditional => EnrollState::AwaitConfirm,
                }
            },
            EnrollState::AwaitConfirm => if status != BEP_RESULT_OK {
                EnrollState::Failed(Error::Enrollment(Step::TemplateGetCount, status))
            } else if count == 0 {
                EnrollState::Failed(Error::Enrollment(Step::ConfirmSave, status))
            } else {
                EnrollState::AwaitRemoval
            },
            EnrollState::AwaitRemoval => if status == BEP_RESULT_OK {
                EnrollState::AwaitSettle
            } else {
                EnrollState::Failed(Error::Enrollment(Step::WaitFingerAbsent, status))
            },
            EnrollState::AwaitSettle => EnrollState::Complete,
            EnrollState::Complete => EnrollState::Complete,
            EnrollState::Failed(e) => EnrollState::Failed(e),
        };
        self.state = next;
    }

    /// The enrollment's result once it has finished. Nothing while a call
    /// is still outstanding.
    pub fn outcome(&self) -> (r: Option<Result<(), Error>>)
        ensures
            self.state is Complete ==> r == Some(Ok::<(), Error>(())),
            self.state matches EnrollState::Failed(e) ==> r == Some(Err::<(), Error>(e)),
            !(self.state is Complete) && !(self.state is Failed) ==> r is None,
    {
        match self.state {
            EnrollState::Complete => Some(Ok(())),
            EnrollState::Failed(e) => Some(Err(e)),
            _ => None,
        }
    }
}

/// Law: when the count query reports at least one stored template, the
/// conditional enrollment finishes as terminal success at once and asks for
/// no further firmware call — in particular, neither a capture nor a save.
pub proof fn lemma_conditional_enroll_skips_when_enrolled(count: u16)
    requires
        count > 0,
    ensures
        enroll_next(EnrollVariant::Conditional, EnrollState::AwaitCount, BEP_RESULT_OK, count)
            == EnrollState::Complete,
        enroll_action_of(
            (EnrollFlow { variant: EnrollVariant::Conditional, state: EnrollState::Complete }),
        ) is None,
{
}

/// Law: with no stored template, the conditional enrollment performs
/// calibrate, soft reset, capture and save, in that exact order, whatever
/// the counts reported along the way; and a failed capture aborts the
/// enrollment with the capture step's error, so the save is never reached.
pub proof fn lemma_conditional_enroll_order(c1: u16, c2: u16, c3: u16, c4: u16, bad: i32)
    requires
        bad != BEP_RESULT_OK,
    ensures
        enroll_next(EnrollVariant::Conditional, EnrollState::AwaitCount, BEP_RESULT_OK, 0)
            == EnrollState::AwaitCalibrate,
        enroll_action_of(
            (EnrollFlow { variant: EnrollVariant::Conditional, state: EnrollState::AwaitCalibrate }),
        ) == Some(EnrollAction::CalibrateSensor),
        enroll_next(EnrollVariant::Conditional, EnrollState::AwaitCalibrate, BEP_RESULT_OK, c1)
            == EnrollState::AwaitReset,
        enroll_action_of(
            (EnrollFlow { variant: EnrollVariant::Conditional, state: EnrollState::AwaitReset }),
        ) == Some(EnrollAction::SoftReset),
        enroll_next(EnrollVariant::Conditional, EnrollState::AwaitReset, BEP_RESULT_OK, c2)
            == EnrollState::AwaitCapture,
        enroll_action_of(
            (EnrollFlow { variant: EnrollVariant::Conditional, state: EnrollState::AwaitCapture }),
        ) == Some(EnrollAction::CaptureFinger),
        enroll_next(EnrollVariant::Conditional, EnrollState::AwaitCapture, BEP_RESULT_OK, c3)
            == EnrollState::AwaitSave,
        enroll_action_of(
            (EnrollFlow { variant: EnrollVariant::Conditional, state: EnrollState::AwaitSave }),
        ) == Some(EnrollAction::SaveTemplate(ENROLL_TEMPLATE_ID)),
        enroll_next(EnrollVariant::Conditional, EnrollState::AwaitSave, BEP_RESULT_OK, c4)
            == EnrollState::Complete,
        enroll_next(EnrollVariant::Conditional, EnrollState::AwaitCapture, bad, c3)
            == EnrollState::Failed(Error::Enrollment(Step::EnrollFinger, bad)),
        enroll_action_of(
            (EnrollFlow {
                variant: EnrollVariant::Conditional,
                state: EnrollState::Failed(Error::Enrollment(Step::EnrollFinger, bad)),
            }),
        ) is None,
{
}

} // verus!
