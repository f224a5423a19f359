//! The sensor session: the single owner of the transport configuration, the
//! protocol channel and the platform handle, with its initialize / ready /
//! deinitialized lifecycle.
//!
//! The platform and firmware calls themselves are blocking hardware I/O made
//! by the surrounding application; the session decides which call to make,
//! and classifies the status code handed back. Every operation takes the
//! session by reference, so two operations can never interleave on one
//! session; the application serializes callers with one process-wide lock
//! whose scope equals one operation.

use vstd::prelude::*;

use crate::channel::ProtocolChannel;
use crate::enroll::EnrollFlow;
use crate::enroll::EnrollState;
use crate::enroll::EnrollVariant;
use crate::identify::clamped_timeout;
use crate::identify::clamp_identify_timeout;
use crate::identify::IdentifyFlow;
use crate::identify::IdentifyOrdering;
use crate::identify::IdentifyState;
use crate::status::BEP_RESULT_OK;
use crate::status::Error;
use crate::status::Step;
use crate::transport::TransportConfig;

verus! {

/// Where the session stands in its lifecycle.
#[derive(Clone, Copy, Debug, PartialEq, Eq, Structural)]
pub enum LifecyclePhase {
    /// No resources allocated; the sensor is not set up.
    Idle,
    /// Resources allocated, platform initialization outstanding.
    Initializing,
    /// Platform initialization succeeded; operations may run.
    Ready,
}

/// The transport configuration and protocol channel of one session; they are
/// allocated together and released together.
pub struct SessionResources {
    /// Pin assignment and bus parameters.
    pub config: TransportConfig,
    /// Buffers and transport hooks for protocol frames.
    pub channel: ProtocolChannel,
}

impl SessionResources {
    /// Well-formedness of the resource pair.
    pub open spec fn wf(self) -> bool {
        &&& self.config.wf()
        &&& self.channel.wf()
    }
}

/// What the application must do after asking to initialize.
#[derive(Clone, Copy, Debug, PartialEq, Eq, Structural)]
pub enum InitAction {
    /// The session is already initialized: done, touch nothing.
    AlreadyInitialized,
    /// Resources are allocated: invoke the platform initialization entry
    /// point, then report its status code back.
    CallPlatformInit,
}

/// What the application must do after asking to deinitialize.
#[derive(Clone, Copy, Debug, PartialEq, Eq, Structural)]
pub enum DeinitAction {
    /// The session is not initialized: done, touch nothing.
    AlreadyInactive,
    /// Invoke the platform teardown entry point, then report its status
    /// code back.
    CallPlatformDeinit,
}

/// The host-side state of the one sensor: lifecycle phase plus the resources
/// that exist exactly while the phase is past `Idle`.
pub struct SensorSession {
    /// Current lifecycle phase.
    pub phase: LifecyclePhase,
    /// Transport configuration and protocol channel, present while not idle.
    pub resources: Option<SessionResources>,
}

impl SensorSession {
    /// Session invariant: resources exist exactly while the phase is past
    /// `Idle`, they are well-formed, and a ready session has its transport
    /// hooks installed (the platform layer installs them before reporting
    /// success from initialization).
    pub open spec fn wf(self) -> bool {
        &&& (self.phase is Idle <==> self.resources is None)
        &&& (self.resources matches Some(r) ==> r.wf())
        &&& (self.phase is Ready ==> (self.resources matches Some(r)
                && r.channel.read_hook_set && r.channel.write_hook_set))
    }

    /// The session accepts operations: initialization has completed and
    /// teardown has not.
    pub open spec fn initialized(self) -> bool {
        self.phase is Ready
    }

    /// Creates the session in its idle state, with nothing allocated.
    pub fn new() -> (s: SensorSession)
        ensures
            s.wf(),
            s.phase is Idle,
            s.resources is None,
    {
        SensorSession { phase: LifecyclePhase::Idle, resources: None }
    }

    /// True exactly when the session is initialized and ready to operate.
    pub fn is_set(&self) -> (r: bool)
        requires
            self.wf(),
        ensures
            r == self.initialized(),
    {
        match self.phase {
            LifecyclePhase::Ready => true,
            _ => false,
        }
    }

    /// Starts initialization. Idempotent: on a ready session it reports
    /// `AlreadyInitialized` and leaves the session untouched, so a second
    /// initialize allocates nothing. On an idle session it allocates a fresh
    /// protocol channel and the board's transport configuration, and asks
    /// the application to run the platform initialization entry point.
    pub fn init_begin(&mut self) -> (r: InitAction)
        requires
            old(self).wf(),
            !(old(self).phase is Initializing),
        ensures
            final(self).wf(),
            old(self).phase is Ready ==> (*final(self) == *old(self)
                && r == InitAction::AlreadyInitialized),
            old(self).phase is Idle ==> {
                &&& r == InitAction::CallPlatformInit
                &&& final(self).phase is Initializing
                &&& final(self).resources matches Some(res)
                    && res.config.is_default_board()
                    && res.channel.fresh()
            },
    {
        match self.phase {
            LifecyclePhase::Ready => InitAction::AlreadyInitialized,
            _ => {
                let config = TransportConfig::default_board();
                let channel = ProtocolChannel::new();
                self.resources = Some(SessionResources { config, channel });
                self.phase = LifecyclePhase::Initializing;
                InitAction::CallPlatformInit
            }
        }
    }

    /// Completes initialization with the platform's status code. On success
    /// the session becomes ready, keeping the allocated resources, whose
    /// transport hooks the platform has installed. On failure every
    /// allocated buffer is released before the error returns — a failed
    /// initialize leaves nothing outstanding — and the error carries the raw
    /// status code.
    pub fn init_finish(&mut self, status: i32) -> (r: Result<(), Error>)
        requires
            old(self).wf(),
            old(self).phase is Initializing,
        ensures
            final(self).wf(),
            status == BEP_RESULT_OK ==> {
                &&& r == Ok::<(), Error>(())
                &&& final(self).phase is Ready
                &&& final(self).resources matches Some(res)
                    && old(self).resources matches Some(orig)
                    && res.config == orig.config
                    && res.channel.read_hook_set
                    && res.channel.write_hook_set
                    && res.channel.phy_rx_timeout == orig.channel.phy_rx_timeout
                    && res.channel.pkt_buffer@ == orig.channel.pkt_buffer@
                    && res.channel.pkt_size == orig.channel.pkt_size
                    && res.channel.txrx_buffer@ == orig.channel.txrx_buffer@
                    && res.channel.arg_size == orig.channel.arg_size
                    && res.channel.bep_result == orig.channel.bep_result
            },
            status != BEP_RESULT_OK ==> {
                &&& r == Err::<(), Error>(Error::HardwareInit(status))
                &&& final(self).phase is Idle
                &&& final(self).resources is None
            },
    {
        if status == BEP_RESULT_OK {
            match &mut self.resources {
                Some(res) => {
                    res.channel.read_hook_set = true;
                    res.channel.write_hook_set = true;
                }
                None => {
                    proof {
                        assert(false);
                    }
                }
            }
            self.phase = LifecyclePhase::Ready;
            Ok(())
        } else {
            self.resources = None;
            self.phase = LifecyclePhase::Idle;
            Err(Error::HardwareInit(status))
        }
    }

    /// Starts deinitialization. On an uninitialized session it reports
    /// `AlreadyInactive`, a successful no-op that alters nothing; only a
    /// ready session asks for the platform teardown entry point.
    pub fn deinit_begin(&self) -> (r: DeinitAction)
        requires
            self.wf(),
            !(self.phase is Initializing),
        ensures
            r == DeinitAction::CallPlatformDeinit <==> self.phase is Ready,
            r == DeinitAction::AlreadyInactive <==> self.phase is Idle,
    {
        match self.phase {
            LifecyclePhase::Ready => DeinitAction::CallPlatformDeinit,
            _ => DeinitAction::AlreadyInactive,
        }
    }

    /// Completes deinitialization with the platform's status code. On
    /// success the resources are released and the session returns to idle.
    /// On failure the session is left exactly as it was — still ready — so
    /// the caller can retry, and the error carries the raw status code.
    pub fn deinit_finish(&mut self, status: i32) -> (r: Result<(), Error>)
        requires
            old(self).wf(),
            old(self).phase is Ready,
        ensures
            final(self).wf(),
            status == BEP_RESULT_OK ==> {
                &&& r == Ok::<(), Error>(())
                &&& final(self).phase is Idle
                &&& final(self).resources is None
            },
            status != BEP_RESULT_OK ==> (*final(self) == *old(self)
                && r == Err::<(), Error>(Error::HardwareTeardown(status))),
    {
        if status == BEP_RESULT_OK {
            self.resources = None;
            self.phase = LifecyclePhase::Idle;
            Ok(())
        } else {
            Err(Error::HardwareTeardown(status))
        }
    }

    /// Interprets the firmware's template-count query. An uninitialized
    /// session fails with `NotInitialized` whatever the arguments; on a
    /// ready session the OK sentinel yields the reported count and any other
    /// status the classified communication error.
    pub fn template_count(&self, status: i32, count: u16) -> (r: Result<u16, Error>)
        requires
            self.wf(),
        ensures
            !self.initialized() ==> r == Err::<u16, Error>(Error::NotInitialized),
            self.initialized() && status == BEP_RESULT_OK ==> r == Ok::<u16, Error>(count),
            self.initialized() && status != BEP_RESULT_OK ==> r == Err::<u16, Error>(
                Error::Communication(Step::TemplateGetCount, status),
            ),
    {
        if !self.is_set() {
            Err(Error::NotInitialized)
        } else if status == BEP_RESULT_OK {
            Ok(count)
        } else {
            Err(Error::Communication(Step::TemplateGetCount, status))
        }
    }

    /// Whether exactly one template is stored. The deployment enforces a
    /// single-slot policy, so "enrolled" means a count of exactly one, not
    /// merely a positive count. Guarded and classified as `template_count`.
    pub fn is_user_enrolled(&self, status: i32, count: u16) -> (r: Result<bool, Error>)
        requires
            self.wf(),
        ensures
            !self.initialized() ==> r == Err::<bool, Error>(Error::NotInitialized),
            self.initialized() && status == BEP_RESULT_OK ==> r == Ok::<bool, Error>(count == 1),
            self.initialized() && status != BEP_RESULT_OK ==> r == Err::<bool, Error>(
                Error::Communication(Step::TemplateGetCount, status),
            ),
    {
        match self.template_count(status, count) {
            Ok(c) => Ok(c == 1),
            Err(e) => Err(e),
        }
    }

    /// Whether a wipe must reach the firmware at all: only a ready session
    /// has templates worth removing.
    pub fn wipe_needed(&self) -> (r: bool)
        requires
            self.wf(),
        ensures
            r == self.initialized(),
    {
        self.is_set()
    }

    /// Interprets the firmware's remove-all-templates call. On an
    /// uninitialized session the wipe succeeds as a no-op — by design, so a
    /// deinit-before-enroll sequence cannot crash the boot flow. On a ready
    /// session the OK sentinel succeeds and any other status becomes the
    /// classified communication error.
    pub fn wipe_templates(&self, status: i32) -> (r: Result<(), Error>)
        requires
            self.wf(),
        ensures
            !self.initialized() ==> r == Ok::<(), Error>(()),
            self.initialized() && status == BEP_RESULT_OK ==> r == Ok::<(), Error>(()),
            self.initialized() && status != BEP_RESULT_OK ==> r == Err::<(), Error>(
                Error::Communication(Step::TemplateRemoveAll, status),
            ),
    {
        if !self.is_set() {
            Ok(())
        } else {
            crate::status::check_bep(status, Step::TemplateRemoveAll)
        }
    }

    /// Starts one identification attempt. An uninitialized session fails
    /// with `NotInitialized`; a ready session yields the timeout to hand to
    /// the firmware, clamped to the protocol's 16-bit field so an oversized
    /// request is never truncated silently.
    pub fn check_once_begin(&self, timeout_ms: u32) -> (r: Result<u16, Error>)
        requires
            self.wf(),
        ensures
            !self.initialized() ==> r == Err::<u16, Error>(Error::NotInitialized),
            self.initialized() ==> r == Ok::<u16, Error>(clamped_timeout(timeout_ms)),
    {
        if !self.is_set() {
            Err(Error::NotInitialized)
        } else {
            Ok(clamp_identify_timeout(timeout_ms))
        }
    }

    /// Interprets the firmware's identify call: matched flag, matched
    /// template id and status code. The result is the matched flag alone —
    /// the template id is informational, the store holds one identity — so
    /// the OK sentinel yields `Ok(matched)`, and any other status the
    /// classified communication error regardless of the matched flag. An
    /// uninitialized session fails with `NotInitialized`.
    pub fn check_once(&self, status: i32, matched: bool, template_id: u16) -> (r: Result<
        bool,
        Error,
    >)
        requires
            self.wf(),
        ensures
            !self.initialized() ==> r == Err::<bool, Error>(Error::NotInitialized),
            self.initialized() && status == BEP_RESULT_OK ==> r == Ok::<bool, Error>(matched),
            self.initialized() && status != BEP_RESULT_OK ==> r == Err::<bool, Error>(
                Error::Communication(Step::IdentifyFinger, status),
            ),
    {
        let _informational_id: u16 = template_id;
        if !self.is_set() {
            Err(Error::NotInitialized)
        } else if status == BEP_RESULT_OK {
            Ok(matched)
        } else {
            Err(Error::Communication(Step::IdentifyFinger, status))
        }
    }

    /// Starts an unconditional enrollment: the strict policy that always
    /// captures and saves. It requires an initialized session — this
    /// variant does not self-heal — and otherwise fails with
    /// `NotInitialized`.
    pub fn enroll_begin(&self) -> (r: Result<EnrollFlow, Error>)
        requires
            self.wf(),
        ensures
            !self.initialized() ==> r == Err::<EnrollFlow, Error>(Error::NotInitialized),
            self.initialized() ==> (r matches Ok(f) && f.variant is Unconditional
                && f.state is AwaitCapture),
    {
        if !self.is_set() {
            Err(Error::NotInitialized)
        } else {
            Ok(EnrollFlow { variant: EnrollVariant::Unconditional, state: EnrollState::AwaitCapture })
        }
    }

    /// Starts a conditional enrollment: query the count first, treat an
    /// existing template as terminal success, else calibrate, soft-reset,
    /// capture and save. The guard still demands an initialized session;
    /// the documented self-healing of this variant is the caller's
    /// composition — initialize first, then begin the flow.
    pub fn enroll_user_if_needed_begin(&self) -> (r: Result<EnrollFlow, Error>)
        requires
            self.wf(),
        ensures
            !self.initialized() ==> r == Err::<EnrollFlow, Error>(Error::NotInitialized),
            self.initialized() ==> (r matches Ok(f) && f.variant is Conditional
                && f.state is AwaitCount),
    {
        if !self.is_set() {
            Err(Error::NotInitialized)
        } else {
            Ok(EnrollFlow { variant: EnrollVariant::Conditional, state: EnrollState::AwaitCount })
        }
    }

    /// Starts one identification attempt under the chosen call ordering. An
    /// uninitialized session fails with `NotInitialized`; otherwise the
    /// flow carries the clamped timeout and begins with the ordering's
    /// first call: the finger-presence wait when bracketed, the identify
    /// call itself when direct.
    pub fn identify_once_begin(&self, timeout_ms: u32, ordering: IdentifyOrdering) -> (r: Result<
        IdentifyFlow,
        Error,
    >)
        requires
            self.wf(),
        ensures
            !self.initialized() ==> r == Err::<IdentifyFlow, Error>(Error::NotInitialized),
            self.initialized() ==> (r matches Ok(f) && f.ordering == ordering
                && f.timeout == clamped_timeout(timeout_ms)
                && f.state == (if ordering is Bracketed {
                    IdentifyState::AwaitPresent
                } else {
                    IdentifyState::AwaitIdentify
                })),
    {
        if !self.is_set() {
            Err(Error::NotInitialized)
        } else {
            let timeout: u16 = clamp_identify_timeout(timeout_ms);
            let state: IdentifyState = match ordering {
                IdentifyOrdering::Bracketed => IdentifyState::AwaitPresent,
                IdentifyOrdering::Direct => IdentifyState::AwaitIdentify,
            };
            Ok(IdentifyFlow { ordering, timeout, state })
        }
    }
}

} // verus!
