use bmlite_session::identify::clamp_identify_timeout;
use bmlite_session::identify::IdentifyAction;
use bmlite_session::identify::IdentifyOrdering;
use bmlite_session::session::InitAction;
use bmlite_session::session::SensorSession;
use bmlite_session::status::Error;
use bmlite_session::status::Step;

fn ready_session() -> SensorSession {
    let mut s = SensorSession::new();
    assert_eq!(s.init_begin(), InitAction::CallPlatformInit);
    assert_eq!(s.init_finish(0), Ok(()));
    s
}

#[test]
fn oversized_timeout_is_clamped_to_the_protocol_field() {
    assert_eq!(clamp_identify_timeout(100000), 65535);
    assert_eq!(clamp_identify_timeout(65536), 65535);
    assert_eq!(clamp_identify_timeout(65535), 65535);
    assert_eq!(clamp_identify_timeout(3000), 3000);
    assert_eq!(clamp_identify_timeout(0), 0);
    let s = ready_session();
    assert_eq!(s.check_once_begin(100000), Ok(65535));
    assert_eq!(s.check_once_begin(1234), Ok(1234));
    let flow = s
        .identify_once_begin(100000, IdentifyOrdering::Direct)
        .expect("session is ready");
    assert_eq!(flow.timeout, 65535);
}

#[test]
fn match_flag_maps_to_the_result() {
    let s = ready_session();
    assert_eq!(s.check_once(0, true, 7), Ok(true));
    assert_eq!(s.check_once(0, false, 0), Ok(false));
    assert_eq!(
        s.check_once(3, true, 7),
        Err(Error::Communication(Step::IdentifyFinger, 3))
    );
    assert_eq!(
        s.check_once(3, false, 0),
        Err(Error::Communication(Step::IdentifyFinger, 3))
    );
}

#[test]
fn direct_ordering_identifies_in_one_call() {
    let s = ready_session();
    let mut flow = s
        .identify_once_begin(3000, IdentifyOrdering::Direct)
        .expect("session is ready");
    assert_eq!(flow.current_action(), Some(IdentifyAction::IdentifyFinger(3000)));
    flow.step(0, true);
    assert_eq!(flow.current_action(), None);
    assert_eq!(flow.outcome(), Some(Ok(true)));
}

#[test]
fn bracketed_ordering_waits_identifies_then_waits_for_removal() {
    let s = ready_session();
    let mut flow = s
        .identify_once_begin(3000, IdentifyOrdering::Bracketed)
        .expect("session is ready");
    assert_eq!(
        flow.current_action(),
        Some(IdentifyAction::WaitFingerPresent(3000))
    );
    flow.step(0, false);
    assert_eq!(flow.current_action(), Some(IdentifyAction::IdentifyFinger(3000)));
    flow.step(0, true);
    assert_eq!(
        flow.current_action(),
        Some(IdentifyAction::WaitFingerAbsent(5000))
    );
    flow.step(0, false);
    assert_eq!(flow.current_action(), None);
    assert_eq!(flow.outcome(), Some(Ok(true)));
}

#[test]
fn bracketed_no_match_completes_false() {
    let s = ready_session();
    let mut flow = s
        .identify_once_begin(2000, IdentifyOrdering::Bracketed)
        .expect("session is ready");
    flow.step(0, false); // finger present
    flow.step(0, false); // identify: no match
    flow.step(0, false); // finger lifted
    assert_eq!(flow.outcome(), Some(Ok(false)));
}

#[test]
fn failed_presence_wait_is_a_communication_error() {
    let s = ready_session();
    let mut flow = s
        .identify_once_begin(2000, IdentifyOrdering::Bracketed)
        .expect("session is ready");
    flow.step(2, false);
    assert_eq!(flow.current_action(), None);
    assert_eq!(
        flow.outcome(),
        Some(Err(Error::Communication(Step::WaitFingerPresent, 2)))
    );
}

#[test]
fn failed_identify_is_a_communication_error_whatever_the_flag_says() {
    let s = ready_session();
    let mut flow = s
        .identify_once_begin(2000, IdentifyOrdering::Direct)
        .expect("session is ready");
    flow.step(-4, true);
    assert_eq!(
        flow.outcome(),
        Some(Err(Error::Communication(Step::IdentifyFinger, -4)))
    );
}

#[test]
fn failed_removal_wait_is_a_communication_error() {
    let s = ready_session();
    let mut flow = s
        .identify_once_begin(2000, IdentifyOrdering::Bracketed)
        .expect("session is ready");
    flow.step(0, false);
    flow.step(0, true);
    flow.step(6, false);
    assert_eq!(
        flow.outcome(),
        Some(Err(Error::Communication(Step::WaitFingerAbsent, 6)))
    );
}
