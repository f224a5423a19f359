//! Firmware status codes and the error taxonomy of the driver.
//!
//! Every platform and firmware entry point reports a raw `i32` status code
//! where one sentinel value means success and any other value is an opaque
//! failure code that is surfaced verbatim to the caller.

use vstd::prelude::*;

verus! {

/// The firmware's "OK" sentinel: every other status code is a failure.
pub const BEP_RESULT_OK: i32 = 0;

/// The platform or firmware entry point whose status code an error carries.
#[derive(Clone, Copy, Debug, PartialEq, Eq, Structural)]
pub enum Step {
    /// Platform bus/pin setup and hardware reset of the sensor.
    PlatformInit,
    /// Platform teardown of the bus and pins.
    PlatformDeinit,
    /// Query of the number of templates stored in the sensor.
    TemplateGetCount,
    /// Removal of every stored template.
    TemplateRemoveAll,
    /// Sensor calibration.
    SensorCalibrate,
    /// Firmware soft reset.
    SwReset,
    /// Guided finger capture for enrollment.
    EnrollFinger,
    /// Save of the captured template under a fixed slot id.
    TemplateSave,
    /// Re-query of the template count after a save, to confirm it took.
    ConfirmSave,
    /// Capture-and-match identification attempt.
    IdentifyFinger,
    /// Bounded wait for a finger to be placed on the sensor.
    WaitFingerPresent,
    /// Bounded wait for the finger to be lifted off the sensor.
    WaitFingerAbsent,
}

/// Classified failure of a sensor operation.
///
/// Each variant carries the failing step and/or the raw status code the
/// firmware or platform layer reported, so a caller can log and diagnose
/// without source access.
#[derive(Clone, Copy, Debug, PartialEq, Eq, Structural)]
pub enum Error {
    /// An operation that needs an active session ran before initialization
    /// or after deinitialization.
    NotInitialized,
    /// Platform setup reported a non-OK status code.
    HardwareInit(i32),
    /// Platform teardown reported a non-OK status code.
    HardwareTeardown(i32),
    /// A firmware query or mutation reported a non-OK status code.
    Communication(Step, i32),
    /// A sub-step of an enrollment sequence failed.
    Enrollment(Step, i32),
    /// The registry lock protecting the session was poisoned by a prior
    /// panic; fatal, since the hardware may be mid-transaction.
    LockPoisoned,
}

/// Classifies a raw firmware status code: the OK sentinel succeeds, every
/// other code becomes a `Communication` error naming the failing step.
pub fn check_bep(res: i32, step: Step) -> (r: Result<(), Error>)
    ensures
        res == BEP_RESULT_OK ==> r == Ok::<(), Error>(()),
        res != BEP_RESULT_OK ==> r == Err::<(), Error>(Error::Communication(step, res)),
{
    if res == BEP_RESULT_OK {
        Ok(())
    } else {
        Err(Error::Communication(step, res))
    }
}

} // verus!
