//! The capture controller: one capture call as a sequence of native
//! operations, each decided from the result of the one before.
//!
//! The controller never touches the graphics device. It says which native
//! operation comes next ([`CaptureAction`]); the caller performs it and
//! reports what happened ([`CaptureEvent`]). A capture call starts with
//! [`CaptureDXGI::capture`] and goes on with [`CaptureDXGI::capture_next`]
//! until the action is [`CaptureAction::Finish`].

use crate::staging_texture::{
    ensure_staging, spec_ensure_staging, staged, FrameDesc, StagingTexture,
};
use crate::{AcquireError, FrameData, Luid, OtherFrame, OutputDuplication};
use vstd::prelude::*;

verus! {

/// The call was invalid; the duplication reports it when a frame is acquired
/// while the previous one is still held (0x887A0001).
pub const DXGI_ERROR_INVALID_CALL: i32 = -2005270527;

/// The device was removed or reset (0x887A0005).
pub const DXGI_ERROR_DEVICE_REMOVED: i32 = -2005270523;

/// The duplication lost access to the desktop, as on a mode change
/// (0x887A0026).
pub const DXGI_ERROR_ACCESS_LOST: i32 = -2005270490;

/// No new frame arrived within the timeout (0x887A0027).
pub const DXGI_ERROR_WAIT_TIMEOUT: i32 = -2005270489;

/// How often one capture call re-acquires the device and the duplication
/// before it reports the loss to its caller.
pub const MAX_RECOVERIES: u32 = 3;

/// What a native failure code asks of the session.
#[derive(Clone, Copy, Debug, PartialEq, Eq, Structural)]
pub enum FailureClass {
    /// The device or the duplication is gone; both are acquired again.
    DeviceLost,
    /// Nothing new to show; the previous frame is still valid.
    Transient,
    /// Anything else; reported to the caller, never retried.
    Fatal,
}

/// The class of every failure code: three codes mean a lost device, one
/// means a timeout, every other code is fatal.
pub open spec fn spec_classify(code: i32) -> FailureClass {
    if code == DXGI_ERROR_ACCESS_LOST || code == DXGI_ERROR_DEVICE_REMOVED || code
        == DXGI_ERROR_INVALID_CALL {
        FailureClass::DeviceLost
    } else if code == DXGI_ERROR_WAIT_TIMEOUT {
        FailureClass::Transient
    } else {
        FailureClass::Fatal
    }
}

/// Classifies a failure code returned by a native call.
pub fn classify(code: i32) -> (class: FailureClass)
    ensures
        class == spec_classify(code),
        class is DeviceLost <==> code == DXGI_ERROR_ACCESS_LOST || code
            == DXGI_ERROR_DEVICE_REMOVED || code == DXGI_ERROR_INVALID_CALL,
        class is Transient <==> code == DXGI_ERROR_WAIT_TIMEOUT,
{
    if code == DXGI_ERROR_ACCESS_LOST || code == DXGI_ERROR_DEVICE_REMOVED || code
        == DXGI_ERROR_INVALID_CALL {
        FailureClass::DeviceLost
    } else if code == DXGI_ERROR_WAIT_TIMEOUT {
        FailureClass::Transient
    } else {
        FailureClass::Fatal
    }
}

/// Why a capture call ended without a frame.
#[derive(Clone, Copy, Debug, PartialEq, Eq, Structural)]
pub enum CaptureError {
    /// No adapter that renders in hardware was found.
    AdapterNotFound,
    /// No candidate adapter gave a device.
    DeviceCreationFailed,
    /// No duplication could be bound to the requested output.
    DuplicationUnavailable,
    /// The device was lost again after `MAX_RECOVERIES` re-acquisitions;
    /// `code` is the last code that said so.
    DeviceLost { code: i32 },
    /// Nothing changed since the last call, and there is no earlier frame to
    /// deliver again.
    NoNewFrame,
    /// A native call failed with a code that is not recovered from.
    Fatal { code: i32 },
}

/// The capture error that stands for a failed acquisition.
pub open spec fn spec_acquire_failure(error: AcquireError) -> CaptureError {
    match error {
        AcquireError::AdapterNotFound => CaptureError::AdapterNotFound,
        AcquireError::DeviceCreationFailed => CaptureError::DeviceCreationFailed,
        AcquireError::DuplicationUnavailable => CaptureError::DuplicationUnavailable,
    }
}

/// The form in which frames are handed to the consumer, chosen when the
/// controller is made.
#[derive(Clone, Copy, Debug, PartialEq, Eq, Structural)]
pub enum OutputMode {
    /// Frames are copied to the mapping buffer and mapped for the processor.
    SystemMemory,
    /// Frames are copied to the frame buffer, whose handle is passed on.
    TextureHandle,
}

/// The native texture that a frame is copied into.
#[derive(Clone, Copy, Debug, PartialEq, Eq, Structural)]
pub enum CopyTarget {
    MappingBuffer,
    FrameBuffer,
}

/// Where a mode wants its frames.
pub open spec fn spec_copy_target(mode: OutputMode) -> CopyTarget {
    match mode {
        OutputMode::SystemMemory => CopyTarget::MappingBuffer,
        OutputMode::TextureHandle => CopyTarget::FrameBuffer,
    }
}

/// The native operation whose result the controller is waiting for.
#[derive(Clone, Copy, Debug, PartialEq, Eq, Structural)]
pub enum Phase {
    /// No capture call is under way.
    Idle,
    /// Device and duplication are being acquired.
    AwaitSession,
    /// The next frame is being acquired.
    AwaitFrame,
    /// An unchanged frame is being released.
    AwaitSkipRelease,
    /// The staging texture `texture` is being created.
    AwaitStaging { texture: StagingTexture },
    /// The frame is being copied into the staging texture.
    AwaitCopy,
    /// The copied frame is being released.
    AwaitRelease,
    /// The frame is being released before the fatal code `code` is reported.
    AwaitFatalRelease { code: i32 },
    /// The staging texture is being mapped.
    AwaitMap,
}

/// What a native operation came to.
#[derive(Debug, PartialEq, Eq)]
pub enum CaptureEvent {
    /// A device was created and a duplication bound.
    SessionAcquired { duplication: OutputDuplication },
    /// No device or no duplication could be had.
    SessionFailed { error: AcquireError },
    /// A frame was acquired; `last_present_time` is zero if the desktop has
    /// not changed, `desc` describes the frame's texture.
    FrameAcquired { last_present_time: i64, desc: FrameDesc },
    /// The staging texture was mapped and unmapped again.
    Mapped { row_pitch: u32, depth_pitch: u32 },
    /// The operation succeeded and has nothing to report.
    Completed,
    /// The operation failed with this code.
    Failed { code: i32 },
}

impl CaptureEvent {
    /// A duplication that arrives with an event has positive dimensions.
    pub open spec fn wf(self) -> bool {
        self matches CaptureEvent::SessionAcquired { duplication } ==> duplication.wf()
    }
}

/// What the caller is to do next.
#[derive(Clone, Copy, Debug, PartialEq, Eq)]
pub enum CaptureAction {
    /// Drop the device with the duplication and the staging texture that
    /// were made on it, pick the first usable adapter, create a device and
    /// bind a duplication to the output.
    AcquireSession { monitor_index: u32 },
    /// Acquire the next frame, waiting at most `timeout_ms` milliseconds.
    AcquireFrame { timeout_ms: u32 },
    /// Destroy the staging texture, if there is one, and create this one.
    CreateStaging { texture: StagingTexture },
    /// Copy the acquired frame into the staging texture.
    CopyFrame { target: CopyTarget },
    /// Release the acquired frame.
    ReleaseFrame,
    /// Map the staging texture for reading, note where the pixels are, and
    /// unmap it.
    MapStaging,
    /// The capture call is over, with this result.
    Finish { outcome: Result<Option<OtherFrame>, CaptureError> },
    /// The event answers no operation that is under way, or a capture call
    /// was started while another is; nothing has changed.
    Rejected,
}

/// Everything the controller knows.
#[derive(Debug, PartialEq, Eq)]
pub struct CaptureState {
    /// The bound duplication; `None` before the first acquisition and after
    /// the device was lost.
    pub duplicator: Option<OutputDuplication>,
    /// The staging texture that holds the last copied frame.
    pub staging_texture: Option<StagingTexture>,
    /// The output to capture, counted from zero.
    pub capture_monitor_index: u32,
    /// The form in which frames are handed over.
    pub output_mode: OutputMode,
    /// Width of the output at the last acquisition.
    pub width: u32,
    /// Height of the output at the last acquisition.
    pub height: u32,
    /// The operation that is under way.
    pub phase: Phase,
    /// Timeout of the capture call that is under way.
    pub timeout: u32,
    /// Whether the capture call that is under way skips unchanged frames.
    pub skip: bool,
    /// How many re-acquisitions the capture call may still make.
    pub recoveries_left: u32,
    /// A frame was acquired and no release has been made for it.
    pub frame_held: bool,
}

impl CaptureState {
    /// What holds of the resources, whatever is under way: dimensions are
    /// positive, and a frame is only held, and a staging texture only kept,
    /// while a duplication is bound.
    pub open spec fn resources_wf(self) -> bool {
        &&& self.duplicator matches Some(d) ==> d.wf()
        &&& self.staging_texture matches Some(t) ==> t.wf()
        &&& self.recoveries_left <= MAX_RECOVERIES
        &&& self.frame_held ==> self.duplicator is Some
        &&& self.staging_texture is Some ==> self.duplicator is Some
    }

    /// What holds between capture calls and at every step of one: the
    /// resources are in order, and they are what the operation under way
    /// needs.
    pub open spec fn wf(self) -> bool {
        &&& self.resources_wf()
        &&& match self.phase {
            Phase::Idle => !self.frame_held,
            Phase::AwaitSession => !self.frame_held && self.duplicator is None,
            Phase::AwaitFrame => !self.frame_held && self.duplicator is Some,
            Phase::AwaitSkipRelease => self.frame_held && self.skip,
            Phase::AwaitStaging { texture } => self.frame_held && self.staging_texture is None
                && texture.wf(),
            Phase::AwaitCopy => self.frame_held && self.staging_texture is Some,
            Phase::AwaitRelease => self.frame_held && self.staging_texture is Some,
            Phase::AwaitFatalRelease { .. } => true,
            Phase::AwaitMap => !self.frame_held && self.staging_texture is Some
                && self.output_mode is SystemMemory,
        }
    }

    /// The state of a new controller.
    pub open spec fn initial(
        capture_monitor_index: u32,
        output_mode: OutputMode,
        duplication: OutputDuplication,
    ) -> CaptureState {
        CaptureState {
            duplicator: Some(duplication),
            staging_texture: None,
            capture_monitor_index,
            output_mode,
            width: 0,
            height: 0,
            phase: Phase::Idle,
            timeout: 0,
            skip: false,
            recoveries_left: 0,
            frame_held: false,
        }
    }

    /// How many more events a capture call can take, at most, before it
    /// finishes.
    pub open spec fn steps_left(self) -> nat {
        match self.phase {
            Phase::Idle => 0,
            Phase::AwaitMap => (self.recoveries_left * 7 + 1) as nat,
            Phase::AwaitFatalRelease { .. } => (self.recoveries_left * 7 + 1) as nat,
            Phase::AwaitRelease => (self.recoveries_left * 7 + 2) as nat,
            Phase::AwaitSkipRelease => (self.recoveries_left * 7 + 2) as nat,
            Phase::AwaitCopy => (self.recoveries_left * 7 + 3) as nat,
            Phase::AwaitStaging { .. } => (self.recoveries_left * 7 + 4) as nat,
            Phase::AwaitFrame => (self.recoveries_left * 7 + 5) as nat,
            Phase::AwaitSession => (self.recoveries_left * 7 + 6) as nat,
        }
    }
}

/// The call ends: nothing is under way and no frame is held.
pub open spec fn finish(s: CaptureState, outcome: Result<Option<OtherFrame>, CaptureError>) -> (
    CaptureState,
    CaptureAction,
) {
    (CaptureState { phase: Phase::Idle, frame_held: false, ..s }, CaptureAction::Finish { outcome })
}

/// The event is turned away and nothing changes.
pub open spec fn reject(s: CaptureState) -> (CaptureState, CaptureAction) {
    (s, CaptureAction::Rejected)
}

/// The next frame is asked for, after a session where there is none.
pub open spec fn request_frame(s: CaptureState) -> (CaptureState, CaptureAction) {
    if s.duplicator is Some {
        (
            CaptureState { phase: Phase::AwaitFrame, ..s },
            CaptureAction::AcquireFrame { timeout_ms: s.timeout },
        )
    } else {
        (
            CaptureState { phase: Phase::AwaitSession, ..s },
            CaptureAction::AcquireSession { monitor_index: s.capture_monitor_index },
        )
    }
}

/// A capture call starts, unless one is under way.
pub open spec fn begin(s: CaptureState, timeout: u32, skip: bool) -> (CaptureState, CaptureAction) {
    if s.phase is Idle {
        request_frame(
            CaptureState { timeout, skip, recoveries_left: MAX_RECOVERIES, frame_held: false, ..s },
        )
    } else {
        reject(s)
    }
}

/// The frame in the staging texture is handed over: mapped first where the
/// consumer reads system memory, by its handle otherwise.
pub open spec fn deliver(s: CaptureState) -> (CaptureState, CaptureAction) {
    match s.staging_texture {
        Some(texture) => match s.output_mode {
            OutputMode::SystemMemory => (
                CaptureState { phase: Phase::AwaitMap, ..s },
                CaptureAction::MapStaging,
            ),
            OutputMode::TextureHandle => finish(
                s,
                Ok(Some(OtherFrame { texture, ptr: FrameData::Texture })),
            ),
        },
        None => finish(s, Err(CaptureError::NoNewFrame)),
    }
}

/// Nothing new arrived. With an earlier frame in the staging texture the
/// call delivers that frame again, or no frame if unchanged frames are
/// skipped; without one it fails.
pub open spec fn conclude_timeout(s: CaptureState) -> (CaptureState, CaptureAction) {
    if s.staging_texture is Some {
        if s.skip {
            finish(s, Ok(None))
        } else {
            deliver(s)
        }
    } else {
        finish(s, Err(CaptureError::NoNewFrame))
    }
}

/// The device is lost: the duplication is discarded, and with it the frame
/// and the staging texture, which was made on that device. The session is
/// acquired again if the call may still do so.
pub open spec fn recover(s: CaptureState, code: i32) -> (CaptureState, CaptureAction) {
    let lost = CaptureState { duplicator: None, staging_texture: None, frame_held: false, ..s };
    if s.recoveries_left > 0 {
        (
            CaptureState {
                recoveries_left: (s.recoveries_left - 1) as u32,
                phase: Phase::AwaitSession,
                ..lost
            },
            CaptureAction::AcquireSession { monitor_index: s.capture_monitor_index },
        )
    } else {
        finish(lost, Err(CaptureError::DeviceLost { code }))
    }
}

/// The frame is released, whether or not one is held, before the fatal code
/// is reported.
pub open spec fn release_then_report(s: CaptureState, code: i32) -> (CaptureState, CaptureAction) {
    (CaptureState { phase: Phase::AwaitFatalRelease { code }, ..s }, CaptureAction::ReleaseFrame)
}

/// The acquisition of a frame, or the release of an unchanged one, failed.
pub open spec fn fail_acquisition(s: CaptureState, code: i32) -> (CaptureState, CaptureAction) {
    match spec_classify(code) {
        FailureClass::DeviceLost => recover(s, code),
        FailureClass::Transient => conclude_timeout(s),
        FailureClass::Fatal => release_then_report(s, code),
    }
}

/// The creation of the staging texture or the copy into it failed while the
/// frame was held.
pub open spec fn fail_copy(s: CaptureState, code: i32) -> (CaptureState, CaptureAction) {
    match spec_classify(code) {
        FailureClass::DeviceLost => recover(s, code),
        _ => release_then_report(s, code),
    }
}

/// The output's dimensions as the duplication recorded them; the cached ones
/// where there is no duplication.
pub open spec fn output_size(s: CaptureState) -> (u32, u32) {
    match s.duplicator {
        Some(d) => d.dimensions(),
        None => (s.width, s.height),
    }
}

/// A frame was acquired. An unchanged frame that is to be skipped is
/// released at once. Otherwise the cached dimensions are refreshed, and the
/// frame is copied into the staging texture, which is created anew unless it
/// has the frame's size and format.
pub open spec fn frame_arrived(s: CaptureState, last_present_time: i64, desc: FrameDesc) -> (
    CaptureState,
    CaptureAction,
) {
    if s.skip && last_present_time == 0 {
        (
            CaptureState { frame_held: true, phase: Phase::AwaitSkipRelease, ..s },
            CaptureAction::ReleaseFrame,
        )
    } else {
        let size = output_size(s);
        match spec_ensure_staging(s.staging_texture, desc) {
            None => (
                CaptureState {
                    frame_held: true,
                    width: size.0,
                    height: size.1,
                    phase: Phase::AwaitCopy,
                    ..s
                },
                CaptureAction::CopyFrame { target: spec_copy_target(s.output_mode) },
            ),
            Some(texture) => (
                CaptureState {
                    frame_held: true,
                    width: size.0,
                    height: size.1,
                    staging_texture: None,
                    phase: Phase::AwaitStaging { texture },
                    ..s
                },
                CaptureAction::CreateStaging { texture },
            ),
        }
    }
}

/// What the controller does with an event: its next state and the next
/// native operation.
pub open spec fn step(s: CaptureState, e: CaptureEvent) -> (CaptureState, CaptureAction) {
    match s.phase {
        Phase::Idle => reject(s),
        Phase::AwaitSession => match e {
            CaptureEvent::SessionAcquired { duplication } => (
                CaptureState {
                    duplicator: Some(duplication),
                    staging_texture: None,
                    phase: Phase::AwaitFrame,
                    ..s
                },
                CaptureAction::AcquireFrame { timeout_ms: s.timeout },
            ),
            CaptureEvent::SessionFailed { error } => finish(s, Err(spec_acquire_failure(error))),
            _ => reject(s),
        },
        Phase::AwaitFrame => match e {
            CaptureEvent::FrameAcquired { last_present_time, desc } => frame_arrived(
                s,
                last_present_time,
                desc,
            ),
            CaptureEvent::Failed { code } => fail_acquisition(s, code),
            _ => reject(s),
        },
        Phase::AwaitSkipRelease => match e {
            CaptureEvent::Completed => conclude_timeout(CaptureState { frame_held: false, ..s }),
            CaptureEvent::Failed { code } => fail_acquisition(
                CaptureState { frame_held: false, ..s },
                code,
            ),
            _ => reject(s),
        },
        Phase::AwaitStaging { texture } => match e {
            CaptureEvent::Completed => (
                CaptureState { staging_texture: Some(texture), phase: Phase::AwaitCopy, ..s },
                CaptureAction::CopyFrame { target: spec_copy_target(s.output_mode) },
            ),
            CaptureEvent::Failed { code } => fail_copy(s, code),
            _ => reject(s),
        },
        Phase::AwaitCopy => match e {
            CaptureEvent::Completed => (
                CaptureState { phase: Phase::AwaitRelease, ..s },
                CaptureAction::ReleaseFrame,
            ),
            CaptureEvent::Failed { code } => fail_copy(s, code),
            _ => reject(s),
        },
        Phase::AwaitRelease => match e {
            CaptureEvent::Completed => deliver(CaptureState { frame_held: false, ..s }),
            CaptureEvent::Failed { code } => finish(s, Err(CaptureError::Fatal { code })),
            _ => reject(s),
        },
        Phase::AwaitFatalRelease { code } => match e {
            CaptureEvent::Completed => finish(s, Err(CaptureError::Fatal { code })),
            CaptureEvent::Failed { .. } => finish(s, Err(CaptureError::Fatal { code })),
            _ => reject(s),
        },
        Phase::AwaitMap => match e {
            CaptureEvent::Mapped { row_pitch, depth_pitch } => match s.staging_texture {
                Some(texture) => finish(
                    s,
                    Ok(Some(OtherFrame { texture, ptr: FrameData::Mapped { row_pitch, depth_pitch } })),
                ),
                None => finish(s, Err(CaptureError::NoNewFrame)),
            },
            CaptureEvent::Failed { code } => finish(s, Err(CaptureError::Fatal { code })),
            _ => reject(s),
        },
    }
}

/// The capture error that stands for a failed acquisition.
pub fn acquire_failure(error: AcquireError) -> (failure: CaptureError)
    ensures
        failure == spec_acquire_failure(error),
{
    match error {
        AcquireError::AdapterNotFound => CaptureError::AdapterNotFound,
        AcquireError::DeviceCreationFailed => CaptureError::DeviceCreationFailed,
        AcquireError::DuplicationUnavailable => CaptureError::DuplicationUnavailable,
    }
}

/// Where a mode wants its frames.
pub fn copy_target(mode: OutputMode) -> (target: CopyTarget)
    ensures
        target == spec_copy_target(mode),
{
    match mode {
        OutputMode::SystemMemory => CopyTarget::MappingBuffer,
        OutputMode::TextureHandle => CopyTarget::FrameBuffer,
    }
}

fn do_finish(s: CaptureState, outcome: Result<Option<OtherFrame>, CaptureError>) -> (next: (
    CaptureState,
    CaptureAction,
))
    requires
        s.resources_wf(),
    ensures
        next == finish(s, outcome),
        next.0.wf(),
{
    (CaptureState { phase: Phase::Idle, frame_held: false, ..s }, CaptureAction::Finish { outcome })
}

fn do_request_frame(s: CaptureState) -> (next: (CaptureState, CaptureAction))
    requires
        s.wf(),
        !s.frame_held,
    ensures
        next == request_frame(s),
        next.0.wf(),
{
    if s.duplicator.is_some() {
        let timeout_ms = s.timeout;
        (CaptureState { phase: Phase::AwaitFrame, ..s }, CaptureAction::AcquireFrame { timeout_ms })
    } else {
        let monitor_index = s.capture_monitor_index;
        (
            CaptureState { phase: Phase::AwaitSession, ..s },
            CaptureAction::AcquireSession { monitor_index },
        )
    }
}

fn do_deliver(s: CaptureState) -> (next: (CaptureState, CaptureAction))
    requires
        s.resources_wf(),
        !s.frame_held,
    ensures
        next == deliver(s),
        next.0.wf(),
{
    match s.staging_texture {
        Some(texture) => match s.output_mode {
            OutputMode::SystemMemory => (
                CaptureState { phase: Phase::AwaitMap, ..s },
                CaptureAction::MapStaging,
            ),
            OutputMode::TextureHandle => do_finish(s, Ok(Some(texture.as_raw()))),
        },
        None => do_finish(s, Err(CaptureError::NoNewFrame)),
    }
}

fn do_conclude_timeout(s: CaptureState) -> (next: (CaptureState, CaptureAction))
    requires
        s.resources_wf(),
        !s.frame_held,
    ensures
        next == conclude_timeout(s),
        next.0.wf(),
{
    if s.staging_texture.is_some() {
        if s.skip {
            do_finish(s, Ok(None))
        } else {
            do_deliver(s)
        }
    } else {
        do_finish(s, Err(CaptureError::NoNewFrame))
    }
}

fn do_recover(s: CaptureState, code: i32) -> (next: (CaptureState, CaptureAction))
    requires
        s.resources_wf(),
    ensures
        next == recover(s, code),
        next.0.wf(),
{
    let recoveries_left = s.recoveries_left;
    let monitor_index = s.capture_monitor_index;
    let lost = CaptureState {
        duplicator: None,
        staging_texture: None,
        frame_held: false,
        phase: Phase::Idle,
        ..s
    };
    if recoveries_left > 0 {
        (
            CaptureState {
                recoveries_left: recoveries_left - 1,
                phase: Phase::AwaitSession,
                ..lost
            },
            CaptureAction::AcquireSession { monitor_index },
        )
    } else {
        do_finish(lost, Err(CaptureError::DeviceLost { code }))
    }
}

fn do_release_then_report(s: CaptureState, code: i32) -> (next: (CaptureState, CaptureAction))
    requires
        s.resources_wf(),
    ensures
        next == release_then_report(s, code),
        next.0.wf(),
{
    (CaptureState { phase: Phase::AwaitFatalRelease { code }, ..s }, CaptureAction::ReleaseFrame)
}

fn do_fail_acquisition(s: CaptureState, code: i32) -> (next: (CaptureState, CaptureAction))
    requires
        s.resources_wf(),
        !s.frame_held,
    ensures
        next == fail_acquisition(s, code),
        next.0.wf(),
{
    match classify(code) {
        FailureClass::DeviceLost => do_recover(s, code),
        FailureClass::Transient => do_conclude_timeout(s),
        FailureClass::Fatal => do_release_then_report(s, code),
    }
}

fn do_fail_copy(s: CaptureState, code: i32) -> (next: (CaptureState, CaptureAction))
    requires
        s.resources_wf(),
    ensures
        next == fail_copy(s, code),
        next.0.wf(),
{
    match classify(code) {
        FailureClass::DeviceLost => do_recover(s, code),
        _ => do_release_then_report(s, code),
    }
}

fn do_frame_arrived(s: CaptureState, last_present_time: i64, desc: FrameDesc) -> (next: (
    CaptureState,
    CaptureAction,
))
    requires
        s.wf(),
        s.phase is AwaitFrame,
    ensures
        next == frame_arrived(s, last_present_time, desc),
        next.0.wf(),
{
    if s.skip && last_present_time == 0 {
        (
            CaptureState { frame_held: true, phase: Phase::AwaitSkipRelease, ..s },
            CaptureAction::ReleaseFrame,
        )
    } else {
        let size = match &s.duplicator {
            Some(d) => d.output_dimensions(),
            None => (s.width, s.height),
        };
        let target = copy_target(s.output_mode);
        match ensure_staging(&s.staging_texture, &desc) {
            None => (
                CaptureState {
                    frame_held: true,
                    width: size.0,
                    height: size.1,
                    phase: Phase::AwaitCopy,
                    ..s
                },
                CaptureAction::CopyFrame { target },
            ),
            Some(texture) => (
                CaptureState {
                    frame_held: true,
                    width: size.0,
                    height: size.1,
                    staging_texture: None,
                    phase: Phase::AwaitStaging { texture },
                    ..s
                },
                CaptureAction::CreateStaging { texture },
            ),
        }
    }
}

/// The next state and the next native operation, computed.
fn advance(s: CaptureState, e: CaptureEvent) -> (next: (CaptureState, CaptureAction))
    requires
        s.wf(),
    ensures
        next == step(s, e),
        next.0.wf(),
{
    match s.phase {
        Phase::Idle => (s, CaptureAction::Rejected),
        Phase::AwaitSession => match e {
            CaptureEvent::SessionAcquired { duplication } => {
                proof {
                    use_type_invariant(&duplication);
                }
                let timeout_ms = s.timeout;
                (
                    CaptureState {
                        duplicator: Some(duplication),
                        staging_texture: None,
                        phase: Phase::AwaitFrame,
                        ..s
                    },
                    CaptureAction::AcquireFrame { timeout_ms },
                )
            },
            CaptureEvent::SessionFailed { error } => do_finish(s, Err(acquire_failure(error))),
            _ => (s, CaptureAction::Rejected),
        },
        Phase::AwaitFrame => match e {
            CaptureEvent::FrameAcquired { last_present_time, desc } => do_frame_arrived(
                s,
                last_present_time,
                desc,
            ),
            CaptureEvent::Failed { code } => do_fail_acquisition(s, code),
            _ => (s, CaptureAction::Rejected),
        },
        Phase::AwaitSkipRelease => match e {
            CaptureEvent::Completed => do_conclude_timeout(
                CaptureState { frame_held: false, ..s },
            ),
            CaptureEvent::Failed { code } => do_fail_acquisition(
                CaptureState { frame_held: false, ..s },
                code,
            ),
            _ => (s, CaptureAction::Rejected),
        },
        Phase::AwaitStaging { texture } => match e {
            CaptureEvent::Completed => {
                let target = copy_target(s.output_mode);
                (
                    CaptureState { staging_texture: Some(texture), phase: Phase::AwaitCopy, ..s },
                    CaptureAction::CopyFrame { target },
                )
            },
            CaptureEvent::Failed { code } => do_fail_copy(s, code),
            _ => (s, CaptureAction::Rejected),
        },
        Phase::AwaitCopy => match e {
            CaptureEvent::Completed => (
                CaptureState { phase: Phase::AwaitRelease, ..s },
                CaptureAction::ReleaseFrame,
            ),
            CaptureEvent::Failed { code } => do_fail_copy(s, code),
            _ => (s, CaptureAction::Rejected),
        },
        Phase::AwaitRelease => match e {
            CaptureEvent::Completed => do_deliver(CaptureState { frame_held: false, ..s }),
            CaptureEvent::Failed { code } => do_finish(s, Err(CaptureError::Fatal { code })),
            _ => (s, CaptureAction::Rejected),
        },
        Phase::AwaitFatalRelease { code } => match e {
            CaptureEvent::Completed => do_finish(s, Err(CaptureError::Fatal { code })),
            CaptureEvent::Failed { .. } => do_finish(s, Err(CaptureError::Fatal { code })),
            _ => (s, CaptureAction::Rejected),
        },
        Phase::AwaitMap => match e {
            CaptureEvent::Mapped { row_pitch, depth_pitch } => match s.staging_texture {
                Some(texture) => do_finish(s, Ok(Some(texture.as_mapped(row_pitch, depth_pitch)))),
                None => do_finish(s, Err(CaptureError::NoNewFrame)),
            },
            CaptureEvent::Failed { code } => do_finish(s, Err(CaptureError::Fatal { code })),
            _ => (s, CaptureAction::Rejected),
        },
    }
}

/// The capture controller of one output.
///
/// It owns the record of the session: whether a duplication is bound and to
/// what, which staging texture exists, and how far the capture call that is
/// under way has come.
#[derive(Debug)]
pub struct CaptureDXGI {
    state: CaptureState,
}

impl View for CaptureDXGI {
    type V = CaptureState;

    closed spec fn view(&self) -> CaptureState {
        self.state
    }
}

impl CaptureDXGI {
    #[verifier::type_invariant]
    spec fn inv(self) -> bool {
        self.state.wf()
    }

    /// Makes the controller of output `capture_monitor_index` from the
    /// result of acquiring a device on the first usable adapter and binding
    /// a duplication to that output. There is no controller without a
    /// duplication.
    pub fn new(
        capture_monitor_index: u32,
        output_mode: OutputMode,
        acquired: Result<OutputDuplication, AcquireError>,
    ) -> (controller: Option<CaptureDXGI>)
        ensures
            controller is Some <==> acquired is Ok,
            controller matches Some(c) ==> c@ == CaptureState::initial(
                capture_monitor_index,
                output_mode,
                acquired->Ok_0,
            ) && c@.wf(),
    {
        match acquired {
            Ok(duplication) => {
                proof {
                    use_type_invariant(&duplication);
                }
                Some(
                    CaptureDXGI {
                        state: CaptureState {
                            duplicator: Some(duplication),
                            staging_texture: None,
                            capture_monitor_index,
                            output_mode,
                            width: 0,
                            height: 0,
                            phase: Phase::Idle,
                            timeout: 0,
                            skip: false,
                            recoveries_left: 0,
                            frame_held: false,
                        },
                    },
                )
            },
            Err(_) => None,
        }
    }

    /// Makes the controller of output `capture_monitor_index` of the adapter
    /// with the logical identifier `luid`, from the result of acquiring a
    /// device on that adapter and binding a duplication to that output.
    /// There is no controller without a duplication, nor with one that was
    /// bound on another adapter.
    pub fn new_by_luid(
        luid: Luid,
        capture_monitor_index: u32,
        output_mode: OutputMode,
        acquired: Result<OutputDuplication, AcquireError>,
    ) -> (controller: Option<CaptureDXGI>)
        ensures
            controller is Some <==> (acquired matches Ok(d) && d.adapter().luid == luid),
            controller matches Some(c) ==> c@ == CaptureState::initial(
                capture_monitor_index,
                output_mode,
                acquired->Ok_0,
            ) && c@.wf(),
    {
        match acquired {
            Ok(duplication) => {
                if duplication.adapter_desc().luid.0 == luid.0 {
                    Self::new(capture_monitor_index, output_mode, Ok(duplication))
                } else {
                    None
                }
            },
            Err(_) => None,
        }
    }

    /// Starts a capture call: frames are waited for at most `timeout`
    /// milliseconds, and with `skip` an unchanged frame gives no frame. The
    /// result is the first native operation of the call; while a call is
    /// under way it is `Rejected`.
    pub fn capture(&mut self, timeout: u32, skip: bool) -> (action: CaptureAction)
        ensures
            (final(self)@, action) == begin(old(self)@, timeout, skip),
            old(self)@.wf(),
            final(self)@.wf(),
    {
        proof {
            use_type_invariant(&*self);
        }
        let mut state = Self::parked();
        std::mem::swap(&mut state, &mut self.state);
        let (next, action) = if let Phase::Idle = state.phase {
            do_request_frame(
                CaptureState {
                    timeout,
                    skip,
                    recoveries_left: MAX_RECOVERIES,
                    frame_held: false,
                    ..state
                },
            )
        } else {
            (state, CaptureAction::Rejected)
        };
        self.state = next;
        action
    }

    /// Goes on with the capture call: takes what the last native operation
    /// came to and gives the next one. An event that answers no operation
    /// under way is `Rejected`.
    pub fn capture_next(&mut self, event: CaptureEvent) -> (action: CaptureAction)
        ensures
            (final(self)@, action) == step(old(self)@, event),
            old(self)@.wf(),
            final(self)@.wf(),
    {
        proof {
            use_type_invariant(&*self);
        }
        let mut state = Self::parked();
        std::mem::swap(&mut state, &mut self.state);
        let (next, action) = advance(state, event);
        self.state = next;
        action
    }

    /// A state that stands in while the real one is worked on.
    fn parked() -> (state: CaptureState)
        ensures
            state == Self::spec_parked(),
            state.wf(),
            state.phase is Idle,
            state.duplicator is None,
            state.staging_texture is None,
            !state.frame_held,
    {
        CaptureState {
            duplicator: None,
            staging_texture: None,
            capture_monitor_index: 0,
            output_mode: OutputMode::SystemMemory,
            width: 0,
            height: 0,
            phase: Phase::Idle,
            timeout: 0,
            skip: false,
            recoveries_left: 0,
            frame_held: false,
        }
    }

    /// The state that stands in while the real one is worked on: no call
    /// is under way, and there is no duplication, no staging texture and no
    /// frame, so that it owns nothing that could be lost with it.
    pub open spec fn spec_parked() -> CaptureState {
        CaptureState {
            duplicator: None,
            staging_texture: None,
            capture_monitor_index: 0,
            output_mode: OutputMode::SystemMemory,
            width: 0,
            height: 0,
            phase: Phase::Idle,
            timeout: 0,
            skip: false,
            recoveries_left: 0,
            frame_held: false,
        }
    }

    /// Width of the output as of the last acquired frame; zero before the
    /// first.
    pub fn width(&self) -> (width: i32)
        ensures
            width == self@.width as i32,
    {
        #[verifier::truncate]
        (self.state.width as i32)
    }

    /// Height of the output as of the last acquired frame; zero before the
    /// first.
    pub fn height(&self) -> (height: i32)
        ensures
            height == self@.height as i32,
    {
        #[verifier::truncate]
        (self.state.height as i32)
    }

    /// Logical identifier of the adapter whose output is duplicated, while a
    /// duplication is bound.
    pub fn get_luid(&self) -> (luid: Option<Luid>)
        ensures
            luid == match self@.duplicator {
                Some(d) => Some(d.adapter().luid),
                None => None,
            },
    {
        match &self.state.duplicator {
            Some(d) => Some(d.adapter_desc().luid),
            None => None,
        }
    }

    /// Everything the controller knows.
    pub fn state(&self) -> (state: &CaptureState)
        ensures
            *state == self@,
            state.wf(),
    {
        proof {
            use_type_invariant(self);
        }
        &self.state
    }
}

/// The frame that a finished call hands over from `texture`: mapped with
/// the given pitches where the consumer reads system memory, by its handle
/// otherwise.
pub open spec fn frame_of(
    mode: OutputMode,
    texture: StagingTexture,
    row_pitch: u32,
    depth_pitch: u32,
) -> OtherFrame {
    match mode {
        OutputMode::SystemMemory => OtherFrame {
            texture,
            ptr: FrameData::Mapped { row_pitch, depth_pitch },
        },
        OutputMode::TextureHandle => OtherFrame { texture, ptr: FrameData::Texture },
    }
}

/// A call that is about to hand over the frame in `s.staging_texture` does
/// so in one step where the handle is passed on, and in two, the first being
/// the mapping, where system memory is read. `(state, action)` is what
/// `deliver` gave.
pub open spec fn delivers(
    s: CaptureState,
    state: CaptureState,
    action: CaptureAction,
    texture: StagingTexture,
    row_pitch: u32,
    depth_pitch: u32,
) -> bool {
    let frame = frame_of(s.output_mode, texture, row_pitch, depth_pitch);
    let done = CaptureState { phase: Phase::Idle, frame_held: false, ..s };
    match s.output_mode {
        OutputMode::TextureHandle => {
            &&& action == CaptureAction::Finish { outcome: Ok(Some(frame)) }
            &&& state == done
        },
        OutputMode::SystemMemory => {
            &&& action == CaptureAction::MapStaging
            &&& step(state, CaptureEvent::Mapped { row_pitch, depth_pitch }) == (
                done,
                CaptureAction::Finish { outcome: Ok(Some(frame)) },
            )
        },
    }
}

/// Every step leaves the controller's record well formed.
pub proof fn lemma_step_keeps_wf(s: CaptureState, e: CaptureEvent)
    requires
        s.wf(),
        e.wf(),
    ensures
        step(s, e).0.wf(),
{
    broadcast use StagingTexture::lemma_for_frame;

}

/// Starting a capture call leaves the controller's record well formed. A
/// call is turned away exactly while another is under way, and then nothing
/// changes.
pub proof fn lemma_begin_keeps_wf(s: CaptureState, timeout: u32, skip: bool)
    requires
        s.wf(),
    ensures
        begin(s, timeout, skip).0.wf(),
        begin(s, timeout, skip).1 is Rejected <==> !(s.phase is Idle),
        begin(s, timeout, skip).1 is Rejected ==> begin(s, timeout, skip).0 == s,
        !(begin(s, timeout, skip).1 is Finish),
{
}

/// At most one frame is held, and none is left behind. A frame is only
/// asked for while none is held; a frame is held only from the moment its
/// acquisition is answered; it stops being held only when a release is
/// answered or the duplication it came from is discarded; a release is only
/// asked for a frame that is held, or before a fatal code is reported; and
/// when the call finishes, none is held.
pub proof fn lemma_frame_exclusive(s: CaptureState, e: CaptureEvent)
    requires
        s.wf(),
        e.wf(),
    ensures
        ({
            let (n, a) = step(s, e);
            &&& a is AcquireFrame ==> !s.frame_held && !n.frame_held
            &&& !s.frame_held && n.frame_held ==> s.phase is AwaitFrame && e is FrameAcquired
            &&& s.frame_held && !n.frame_held ==> n.duplicator is None || s.phase
                is AwaitSkipRelease || s.phase is AwaitRelease || s.phase is AwaitFatalRelease
            &&& a is ReleaseFrame ==> n.frame_held || n.phase is AwaitFatalRelease
            &&& a is Finish <==> n.phase is Idle && !(s.phase is Idle)
            &&& a is Finish ==> !n.frame_held
        }),
{
    broadcast use StagingTexture::lemma_for_frame;

}

/// Every event that is not turned away brings the call nearer to its end:
/// `steps_left` falls, and it is zero exactly when no call is under way. So
/// a capture call finishes after at most `7 * MAX_RECOVERIES + 6` events,
/// however often the device is lost.
pub proof fn lemma_step_progress(s: CaptureState, e: CaptureEvent)
    requires
        s.wf(),
        e.wf(),
    ensures
        step(s, e).1 is Rejected ==> step(s, e).0 == s,
        !(step(s, e).1 is Rejected) ==> step(s, e).0.steps_left() < s.steps_left(),
        s.steps_left() <= 7 * MAX_RECOVERIES + 6,
        s.steps_left() == 0 <==> s.phase is Idle,
{
    broadcast use StagingTexture::lemma_for_frame;

}

/// A timeout while an earlier frame is in the staging texture, on a call
/// that does not skip unchanged frames, delivers that frame again: nothing
/// is created, copied or released, the staging texture and the dimensions
/// stay as they were, and the call finishes with the frame.
pub proof fn lemma_timeout_redelivers(s: CaptureState, row_pitch: u32, depth_pitch: u32)
    requires
        s.wf(),
        s.phase is AwaitFrame,
        s.staging_texture is Some,
        !s.skip,
    ensures
        ({
            let (n, a) = step(s, CaptureEvent::Failed { code: DXGI_ERROR_WAIT_TIMEOUT });
            &&& n.staging_texture == s.staging_texture
            &&& n.duplicator == s.duplicator
            &&& (n.width, n.height) == (s.width, s.height)
            &&& delivers(s, n, a, s.staging_texture->Some_0, row_pitch, depth_pitch)
        }),
{
}

/// A timeout before any frame was copied fails with `NoNewFrame`, and with
/// nothing else.
pub proof fn lemma_timeout_without_frame(s: CaptureState)
    requires
        s.wf(),
        s.phase is AwaitFrame,
        s.staging_texture is None,
    ensures
        step(s, CaptureEvent::Failed { code: DXGI_ERROR_WAIT_TIMEOUT }) == (
            CaptureState { phase: Phase::Idle, ..s },
            CaptureAction::Finish { outcome: Err(CaptureError::NoNewFrame) },
        ),
{
}

/// On a call that skips unchanged frames, a frame whose presentation time is
/// zero is released, once, and nothing else is done with it. The call then
/// ends without a frame; it ends with `NoNewFrame` where no frame was ever
/// copied. The staging texture and the cached dimensions stay as they were.
pub proof fn lemma_skip_unchanged(s: CaptureState, desc: FrameDesc)
    requires
        s.wf(),
        s.phase is AwaitFrame,
        s.skip,
    ensures
        ({
            let (held, first) = step(
                s,
                CaptureEvent::FrameAcquired { last_present_time: 0, desc },
            );
            let (done, second) = step(held, CaptureEvent::Completed);
            &&& first == CaptureAction::ReleaseFrame
            &&& held == CaptureState { frame_held: true, phase: Phase::AwaitSkipRelease, ..s }
            &&& done == CaptureState { phase: Phase::Idle, ..s }
            &&& second == CaptureAction::Finish {
                outcome: if s.staging_texture is Some {
                    Ok(None)
                } else {
                    Err(CaptureError::NoNewFrame)
                },
            }
        }),
{
}

/// A code that says the device is lost is not reported to the caller of a
/// capture call that meets it for the first time. The duplication is
/// discarded and the session acquired again, once; with the new duplication
/// bound, the next frame is acquired, a staging texture is made for it on
/// the new device, the frame is copied and released, and the call ends with
/// that frame, the dimensions being those of the new duplication.
pub proof fn lemma_device_loss_recovery(
    s: CaptureState,
    timeout: u32,
    skip: bool,
    code: i32,
    duplication: OutputDuplication,
    last_present_time: i64,
    desc: FrameDesc,
    row_pitch: u32,
    depth_pitch: u32,
)
    requires
        s.wf(),
        s.phase is Idle,
        s.duplicator is Some,
        spec_classify(code) is DeviceLost,
        duplication.wf(),
        !(skip && last_present_time == 0),
    ensures
        ({
            let texture = StagingTexture::spec_for_frame(desc);
            let (waiting, a0) = begin(s, timeout, skip);
            let (lost, a1) = step(waiting, CaptureEvent::Failed { code });
            let (bound, a2) = step(lost, CaptureEvent::SessionAcquired { duplication });
            let (held, a3) = step(bound, CaptureEvent::FrameAcquired { last_present_time, desc });
            let (made, a4) = step(held, CaptureEvent::Completed);
            let (copied, a5) = step(made, CaptureEvent::Completed);
            let (released, a6) = step(copied, CaptureEvent::Completed);
            &&& a0 == CaptureAction::AcquireFrame { timeout_ms: timeout }
            &&& lost.duplicator is None
            &&& lost.staging_texture is None
            &&& a1 == CaptureAction::AcquireSession { monitor_index: s.capture_monitor_index }
            &&& bound.duplicator == Some(duplication)
            &&& bound.staging_texture is None
            &&& a2 == CaptureAction::AcquireFrame { timeout_ms: timeout }
            &&& a3 == CaptureAction::CreateStaging { texture }
            &&& a4 == CaptureAction::CopyFrame { target: spec_copy_target(s.output_mode) }
            &&& a5 == CaptureAction::ReleaseFrame
            &&& delivers(
                CaptureState { frame_held: false, ..copied },
                released,
                a6,
                texture,
                row_pitch,
                depth_pitch,
            )
            &&& (released.width, released.height) == duplication.dimensions()
            &&& released.duplicator == Some(duplication)
            &&& released.staging_texture == Some(texture)
        }),
{
    broadcast use StagingTexture::lemma_for_frame;

}

/// A capture call starts with all its recoveries: whatever came before, the
/// first loss of the device in a call is recovered from.
pub proof fn lemma_begin_arms_recovery(s: CaptureState, timeout: u32, skip: bool)
    requires
        s.wf(),
        s.phase is Idle,
    ensures
        ({
            let (armed, first) = begin(s, timeout, skip);
            &&& armed.recoveries_left == MAX_RECOVERIES
            &&& armed.recoveries_left > 0
            &&& armed.timeout == timeout
            &&& armed.skip == skip
            &&& s.duplicator is Some ==> armed.phase is AwaitFrame && first
                == (CaptureAction::AcquireFrame { timeout_ms: timeout })
            &&& s.duplicator is None ==> armed.phase is AwaitSession && first
                == (CaptureAction::AcquireSession { monitor_index: s.capture_monitor_index })
        }),
{
}

/// A call that has used up its recoveries reports the loss: the duplication
/// and the staging texture are discarded, nothing is acquired, and the call
/// ends with `DeviceLost` and the code.
pub proof fn lemma_device_loss_reported(s: CaptureState, code: i32)
    requires
        s.wf(),
        s.phase is AwaitFrame,
        s.recoveries_left == 0,
        spec_classify(code) is DeviceLost,
    ensures
        step(s, CaptureEvent::Failed { code }) == (
            CaptureState { duplicator: None, staging_texture: None, phase: Phase::Idle, ..s },
            CaptureAction::Finish { outcome: Err(CaptureError::DeviceLost { code }) },
        ),
{
}

/// Where the session cannot be acquired, the call ends with the reason, and
/// tries nothing more.
pub proof fn lemma_acquisition_failure_reported(s: CaptureState, error: AcquireError)
    requires
        s.wf(),
        s.phase is AwaitSession,
    ensures
        step(s, CaptureEvent::SessionFailed { error }) == (
            CaptureState { phase: Phase::Idle, ..s },
            CaptureAction::Finish { outcome: Err(spec_acquire_failure(error)) },
        ),
{
}

/// A code of no known class that the acquisition of a frame fails with is
/// reported as it is, and nothing is tried again: the frame is released,
/// and whatever the release comes to, the call ends with `Fatal` and that
/// code. Apart from that the controller is as it was before.
pub proof fn lemma_fatal_reported(s: CaptureState, code: i32, release: CaptureEvent)
    requires
        s.wf(),
        s.phase is AwaitFrame,
        spec_classify(code) is Fatal,
        release is Completed || release is Failed,
    ensures
        ({
            let (releasing, first) = step(s, CaptureEvent::Failed { code });
            let (done, second) = step(releasing, release);
            &&& first == CaptureAction::ReleaseFrame
            &&& releasing == CaptureState { phase: Phase::AwaitFatalRelease { code }, ..s }
            &&& second == CaptureAction::Finish { outcome: Err(CaptureError::Fatal { code }) }
            &&& done == CaptureState { phase: Phase::Idle, ..s }
        }),
{
}

/// A failure while the frame is held, in the creation of the staging
/// texture or in the copy, never leaves the frame behind: either the
/// duplication is discarded with it, or the frame is released before the
/// code is reported as `Fatal`.
pub proof fn lemma_failure_releases_frame(s: CaptureState, code: i32, release: CaptureEvent)
    requires
        s.wf(),
        s.phase is AwaitStaging || s.phase is AwaitCopy,
        release is Completed || release is Failed,
    ensures
        ({
            let (n, a) = step(s, CaptureEvent::Failed { code });
            if spec_classify(code) is DeviceLost {
                n.duplicator is None && !n.frame_held
            } else {
                &&& a == CaptureAction::ReleaseFrame
                &&& step(n, release).1 == CaptureAction::Finish {
                    outcome: Err(CaptureError::Fatal { code }),
                }
                &&& !step(n, release).0.frame_held
            }
        }),
{
}

/// As soon as a frame is acquired that is not skipped, the cached width and
/// height are those of the bound duplication, and they stay so until the
/// call ends, however it ends, unless the device is lost on the way.
pub proof fn lemma_dimensions_refreshed(s: CaptureState, last_present_time: i64, desc: FrameDesc)
    requires
        s.wf(),
        s.phase is AwaitFrame,
        !(s.skip && last_present_time == 0),
    ensures
        ({
            let n = step(s, CaptureEvent::FrameAcquired { last_present_time, desc }).0;
            &&& n.duplicator == s.duplicator
            &&& (n.width, n.height) == s.duplicator->Some_0.dimensions()
            &&& n.width > 0 && n.height > 0
        }),
{
}

/// No step but the acquisition of a frame changes the cached width and
/// height.
pub proof fn lemma_dimensions_kept(s: CaptureState, e: CaptureEvent)
    requires
        s.wf(),
        e.wf(),
        !(s.phase is AwaitFrame && e is FrameAcquired),
    ensures
        step(s, e).0.width == s.width,
        step(s, e).0.height == s.height,
{
}

/// The staging texture, where there is one, takes the frames that were last
/// copied: it changes only when a frame of another size or format arrives,
/// when it is then created for that frame, and when the duplication is
/// discarded, which leaves none. A new session starts without one. So no
/// staging texture outlives the device it was made on.
pub proof fn lemma_staging_follows_frames(s: CaptureState, e: CaptureEvent)
    requires
        s.wf(),
        e.wf(),
    ensures
        ({
            let (n, a) = step(s, e);
            &&& a is CopyFrame ==> n.staging_texture is Some
            &&& (s.phase is AwaitFrame && e is FrameAcquired && a is CopyFrame)
                ==> n.staging_texture == staged(s.staging_texture, e->desc)
                && n.staging_texture->Some_0.frame_desc() == e->desc
            &&& (s.phase is AwaitStaging && e is Completed) ==> n.staging_texture == Some(
                s.phase->texture,
            )
            &&& n.staging_texture != s.staging_texture ==> a is CreateStaging || (s.phase
                is AwaitStaging && e is Completed) || n.duplicator is None
            &&& (s.phase is AwaitSession && e is SessionAcquired) ==> n.staging_texture is None
            &&& n.duplicator is None ==> n.staging_texture is None
            &&& a is CreateStaging ==> e is FrameAcquired && a->texture
                == StagingTexture::spec_for_frame(e->desc) && spec_ensure_staging(
                s.staging_texture,
                e->desc,
            ) is Some
        }),
{
    broadcast use StagingTexture::lemma_for_frame;

}

} // verus!
