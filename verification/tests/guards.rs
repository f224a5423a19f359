use bmlite_session::identify::IdentifyOrdering;
use bmlite_session::session::InitAction;
use bmlite_session::session::SensorSession;
use bmlite_session::status::check_bep;
use bmlite_session::status::Error;
use bmlite_session::status::Step;

fn ready_session() -> SensorSession {
    let mut s = SensorSession::new();
    assert_eq!(s.init_begin(), InitAction::CallPlatformInit);
    assert_eq!(s.init_finish(0), Ok(()));
    s
}

#[test]
fn template_count_requires_initialization() {
    let s = SensorSession::new();
    assert_eq!(s.template_count(0, 1), Err(Error::NotInitialized));
}

#[test]
fn is_user_enrolled_requires_initialization() {
    let s = SensorSession::new();
    assert_eq!(s.is_user_enrolled(0, 1), Err(Error::NotInitialized));
}

#[test]
fn check_once_requires_initialization() {
    let s = SensorSession::new();
    assert_eq!(s.check_once_begin(3000), Err(Error::NotInitialized));
    assert_eq!(s.check_once(0, true, 1), Err(Error::NotInitialized));
}

#[test]
fn enroll_flows_require_initialization() {
    let s = SensorSession::new();
    assert_eq!(s.enroll_begin(), Err(Error::NotInitialized));
    assert_eq!(s.enroll_user_if_needed_begin(), Err(Error::NotInitialized));
}

#[test]
fn identify_flow_requires_initialization() {
    let s = SensorSession::new();
    assert_eq!(
        s.identify_once_begin(3000, IdentifyOrdering::Direct),
        Err(Error::NotInitialized)
    );
}

#[test]
fn wipe_is_a_noop_when_uninitialized() {
    let s = SensorSession::new();
    assert!(!s.wipe_needed());
    assert_eq!(s.wipe_templates(99), Ok(()));
}

#[test]
fn wipe_maps_statuses_when_ready() {
    let s = ready_session();
    assert!(s.wipe_needed());
    assert_eq!(s.wipe_templates(0), Ok(()));
    assert_eq!(
        s.wipe_templates(5),
        Err(Error::Communication(Step::TemplateRemoveAll, 5))
    );
}

#[test]
fn template_count_maps_statuses_when_ready() {
    let s = ready_session();
    assert_eq!(s.template_count(0, 1), Ok(1));
    assert_eq!(s.template_count(0, 0), Ok(0));
    assert_eq!(
        s.template_count(4, 1),
        Err(Error::Communication(Step::TemplateGetCount, 4))
    );
}

#[test]
fn enrolled_means_exactly_one_template() {
    let s = ready_session();
    assert_eq!(s.is_user_enrolled(0, 1), Ok(true));
    assert_eq!(s.is_user_enrolled(0, 0), Ok(false));
    assert_eq!(s.is_user_enrolled(0, 2), Ok(false));
    assert_eq!(
        s.is_user_enrolled(-3, 1),
        Err(Error::Communication(Step::TemplateGetCount, -3))
    );
}

#[test]
fn check_bep_classifies_raw_codes() {
    assert_eq!(check_bep(0, Step::SwReset), Ok(()));
    assert_eq!(
        check_bep(-1, Step::SwReset),
        Err(Error::Communication(Step::SwReset, -1))
    );
    assert_eq!(
        check_bep(12, Step::SensorCalibrate),
        Err(Error::Communication(Step::SensorCalibrate, 12))
    );
}
