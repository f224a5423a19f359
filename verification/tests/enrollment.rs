use bmlite_session::enroll::EnrollAction;
use bmlite_session::session::InitAction;
use bmlite_session::session::SensorSession;
use bmlite_session::status::Error;
use bmlite_session::status::Step;

fn ready_session() -> SensorSession {
    let mut s = SensorSession::new();
    assert_eq!(s.init_begin(), InitAction::CallPlatformInit);
    assert_eq!(s.init_finish(0), Ok(()));
    s
}

#[test]
fn conditional_enroll_skips_when_template_exists() {
    let s = ready_session();
    let mut flow = s.enroll_user_if_needed_begin().expect("session is ready");
    assert_eq!(flow.current_action(), Some(EnrollAction::GetTemplateCount));
    // The count query reports one stored template: terminal success, and no
    // capture or save call is ever requested.
    flow.step(0, 1);
    assert_eq!(flow.current_action(), None);
    assert_eq!(flow.outcome(), Some(Ok(())));
}

#[test]
fn conditional_enroll_runs_calibrate_reset_capture_save_in_order() {
    let s = ready_session();
    let mut flow = s.enroll_user_if_needed_begin().expect("session is ready");
    assert_eq!(flow.current_action(), Some(EnrollAction::GetTemplateCount));
    flow.step(0, 0);
    assert_eq!(flow.current_action(), Some(EnrollAction::CalibrateSensor));
    flow.step(0, 0);
    assert_eq!(flow.current_action(), Some(EnrollAction::SoftReset));
    flow.step(0, 0);
    assert_eq!(flow.current_action(), Some(EnrollAction::CaptureFinger));
    flow.step(0, 0);
    assert_eq!(flow.current_action(), Some(EnrollAction::SaveTemplate(1)));
    flow.step(0, 0);
    assert_eq!(flow.current_action(), None);
    assert_eq!(flow.outcome(), Some(Ok(())));
}

#[test]
fn failed_capture_aborts_before_save() {
    let s = ready_session();
    let mut flow = s.enroll_user_if_needed_begin().expect("session is ready");
    flow.step(0, 0); // count: none stored
    flow.step(0, 0); // calibrate ok
    flow.step(0, 0); // soft reset ok
    assert_eq!(flow.current_action(), Some(EnrollAction::CaptureFinger));
    flow.step(-7, 0); // capture fails
    assert_eq!(flow.current_action(), None);
    assert_eq!(
        flow.outcome(),
        Some(Err(Error::Enrollment(Step::EnrollFinger, -7)))
    );
}

#[test]
fn failed_count_query_aborts_conditional_enroll() {
    let s = ready_session();
    let mut flow = s.enroll_user_if_needed_begin().expect("session is ready");
    flow.step(9, 0);
    assert_eq!(flow.current_action(), None);
    assert_eq!(
        flow.outcome(),
        Some(Err(Error::Enrollment(Step::TemplateGetCount, 9)))
    );
}

#[test]
fn failed_calibration_aborts_conditional_enroll() {
    let s = ready_session();
    let mut flow = s.enroll_user_if_needed_begin().expect("session is ready");
    flow.step(0, 0);
    flow.step(2, 0);
    assert_eq!(
        flow.outcome(),
        Some(Err(Error::Enrollment(Step::SensorCalibrate, 2)))
    );
}

#[test]
fn unconditional_enroll_captures_saves_confirms_and_settles() {
    let s = ready_session();
    let mut flow = s.enroll_begin().expect("session is ready");
    assert_eq!(flow.current_action(), Some(EnrollAction::CaptureFinger));
    flow.step(0, 0);
    assert_eq!(flow.current_action(), Some(EnrollAction::SaveTemplate(1)));
    flow.step(0, 0);
    assert_eq!(flow.current_action(), Some(EnrollAction::GetTemplateCount));
    flow.step(0, 1); // the re-query confirms the save took
    assert_eq!(
        flow.current_action(),
        Some(EnrollAction::WaitFingerAbsent(5000))
    );
    flow.step(0, 0);
    assert_eq!(flow.current_action(), Some(EnrollAction::Settle(150)));
    flow.step(0, 0);
    assert_eq!(flow.current_action(), None);
    assert_eq!(flow.outcome(), Some(Ok(())));
}

#[test]
fn unconditional_enroll_fails_when_confirm_sees_no_template() {
    let s = ready_session();
    let mut flow = s.enroll_begin().expect("session is ready");
    flow.step(0, 0); // capture ok
    flow.step(0, 0); // save ok
    flow.step(0, 0); // the re-query still reports zero templates
    assert_eq!(
        flow.outcome(),
        Some(Err(Error::Enrollment(Step::ConfirmSave, 0)))
    );
}

#[test]
fn failed_save_aborts_unconditional_enroll() {
    let s = ready_session();
    let mut flow = s.enroll_begin().expect("session is ready");
    flow.step(0, 0); // capture ok
    flow.step(11, 0); // save fails
    assert_eq!(flow.current_action(), None);
    assert_eq!(
        flow.outcome(),
        Some(Err(Error::Enrollment(Step::TemplateSave, 11)))
    );
}

#[test]
fn failed_removal_wait_aborts_unconditional_enroll() {
    let s = ready_session();
    let mut flow = s.enroll_begin().expect("session is ready");
    flow.step(0, 0); // capture ok
    flow.step(0, 0); // save ok
    flow.step(0, 1); // confirm ok
    flow.step(-2, 0); // the finger was never lifted in time
    assert_eq!(
        flow.outcome(),
        Some(Err(Error::Enrollment(Step::WaitFingerAbsent, -2)))
    );
}
