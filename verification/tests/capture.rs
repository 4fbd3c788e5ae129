use std::collections::VecDeque;

use dxgi::acquire::bind_output;
use dxgi::capture::{
    classify, CaptureAction, CaptureError, CaptureEvent, CopyTarget, FailureClass, OutputMode,
    Phase, DXGI_ERROR_ACCESS_LOST, DXGI_ERROR_DEVICE_REMOVED, DXGI_ERROR_INVALID_CALL,
    DXGI_ERROR_WAIT_TIMEOUT, MAX_RECOVERIES,
};
use dxgi::staging_texture::{FrameDesc, StagingTexture};
use dxgi::utils::NativeAdapterDesc;
use dxgi::{AcquireError, CaptureDXGI, DesktopRect, FrameData, Luid, OtherFrame, OutputDuplication};

const BGRA: i32 = 87;
const E_ACCESSDENIED: i32 = 0x8007_0005u32 as i32;
const E_UNEXPECTED: i32 = 0x8000_FFFFu32 as i32;
const E_INVALIDARG: i32 = 0x8007_0057u32 as i32;
const DXGI_ERROR_MODE_CHANGE_IN_PROGRESS: i32 = 0x887A_0025u32 as i32;
const DXGI_ERROR_UNSUPPORTED: i32 = 0x887A_0004u32 as i32;
const DXGI_ERROR_SESSION_DISCONNECTED: i32 = 0x887A_0028u32 as i32;
const DXGI_ERROR_NOT_CURRENTLY_AVAILABLE: i32 = 0x887A_0022u32 as i32;
const DXGI_ERROR_NOT_FOUND: i32 = 0x887A_0002u32 as i32;

fn duplication(width: i32, height: i32, luid_low: u32) -> OutputDuplication {
    let native = NativeAdapterDesc {
        description: vec![0; 128],
        vendor_id: 0x10de,
        device_id: 0x2206,
        flags: 0,
        luid_low,
        luid_high: 0,
    };
    bind_output(DesktopRect { left: 0, top: 0, right: width, bottom: height }, Some(&native)).unwrap()
}

fn frame(width: u32, height: u32) -> FrameDesc {
    FrameDesc { width, height, format: BGRA }
}

/// A desktop that answers native operations from a script and keeps count.
struct Desktop {
    /// What the acquisitions of frames give, in turn; a timeout once the script is over.
    frames: VecDeque<Result<(i64, FrameDesc), i32>>,
    /// What the acquisitions of sessions give, in turn.
    sessions: VecDeque<Result<OutputDuplication, AcquireError>>,
    staging_result: Result<(), i32>,
    copy_result: Result<(), i32>,
    release_result: Result<(), i32>,
    map_result: Result<(), i32>,
    held: bool,
    /// Serial number of the frame that is held.
    incoming: u64,
    /// Serial number of the frame whose pixels the staging texture holds.
    staged: Option<u64>,
    staging: Option<StagingTexture>,
    frame_acquisitions: usize,
    session_acquisitions: usize,
    creations: usize,
    copies: usize,
    releases: usize,
    maps: usize,
    last_timeout: Option<u32>,
}

impl Desktop {
    fn new() -> Desktop {
        Desktop {
            frames: VecDeque::new(),
            sessions: VecDeque::new(),
            staging_result: Ok(()),
            copy_result: Ok(()),
            release_result: Ok(()),
            map_result: Ok(()),
            held: false,
            incoming: 0,
            staged: None,
            staging: None,
            frame_acquisitions: 0,
            session_acquisitions: 0,
            creations: 0,
            copies: 0,
            releases: 0,
            maps: 0,
            last_timeout: None,
        }
    }

    fn with_frames(frames: Vec<Result<(i64, FrameDesc), i32>>) -> Desktop {
        let mut desktop = Desktop::new();
        desktop.frames = frames.into();
        desktop
    }

    fn perform(&mut self, action: &CaptureAction) -> CaptureEvent {
        match *action {
            CaptureAction::AcquireSession { .. } => {
                self.session_acquisitions += 1;
                // A new device: what was made on the old one is gone.
                self.held = false;
                self.staging = None;
                self.staged = None;
                match self.sessions.pop_front() {
                    Some(Ok(duplication)) => CaptureEvent::SessionAcquired { duplication },
                    Some(Err(error)) => CaptureEvent::SessionFailed { error },
                    None => CaptureEvent::SessionFailed { error: AcquireError::AdapterNotFound },
                }
            }
            CaptureAction::AcquireFrame { timeout_ms } => {
                self.frame_acquisitions += 1;
                self.last_timeout = Some(timeout_ms);
                if self.held {
                    return CaptureEvent::Failed { code: DXGI_ERROR_INVALID_CALL };
                }
                match self.frames.pop_front() {
                    Some(Ok((last_present_time, desc))) => {
                        self.held = true;
                        self.incoming += 1;
                        CaptureEvent::FrameAcquired { last_present_time, desc }
                    }
                    Some(Err(code)) => CaptureEvent::Failed { code },
                    None => CaptureEvent::Failed { code: DXGI_ERROR_WAIT_TIMEOUT },
                }
            }
            CaptureAction::CreateStaging { texture } => {
                self.creations += 1;
                self.staging = None;
                self.staged = None;
                match self.staging_result {
                    Ok(()) => {
                        self.staging = Some(texture);
                        CaptureEvent::Completed
                    }
                    Err(code) => CaptureEvent::Failed { code },
                }
            }
            CaptureAction::CopyFrame { .. } => {
                assert!(self.held, "a copy needs a held frame");
                assert!(self.staging.is_some(), "a copy needs a staging texture");
                self.copies += 1;
                match self.copy_result {
                    Ok(()) => {
                        self.staged = Some(self.incoming);
                        CaptureEvent::Completed
                    }
                    Err(code) => CaptureEvent::Failed { code },
                }
            }
            CaptureAction::ReleaseFrame => {
                self.releases += 1;
                if !self.held {
                    return CaptureEvent::Failed { code: DXGI_ERROR_INVALID_CALL };
                }
                match self.release_result {
                    Ok(()) => {
                        self.held = false;
                        CaptureEvent::Completed
                    }
                    Err(code) => CaptureEvent::Failed { code },
                }
            }
            CaptureAction::MapStaging => {
                self.maps += 1;
                match (self.map_result, self.staging) {
                    (Ok(()), Some(texture)) => CaptureEvent::Mapped {
                        row_pitch: texture.width() * 4,
                        depth_pitch: texture.width() * 4 * texture.height(),
                    },
                    (Err(code), _) => CaptureEvent::Failed { code },
                    (Ok(()), None) => panic!("nothing to map"),
                }
            }
            CaptureAction::Finish { .. } | CaptureAction::Rejected => {
                panic!("not a native operation: {:?}", action)
            }
        }
    }
}

/// One capture call, run to its end; gives the result and what was asked on the way.
fn capture(
    controller: &mut CaptureDXGI,
    desktop: &mut Desktop,
    timeout: u32,
    skip: bool,
) -> (Result<Option<OtherFrame>, CaptureError>, Vec<CaptureAction>) {
    let mut asked = Vec::new();
    let mut action = controller.capture(timeout, skip);
    loop {
        match action {
            CaptureAction::Finish { outcome } => {
                assert_eq!(controller.state().phase, Phase::Idle);
                assert!(!controller.state().frame_held);
                return (outcome, asked);
            }
            CaptureAction::Rejected => panic!("rejected in the middle of a call"),
            _ => {
                asked.push(action);
                assert!(asked.len() <= (7 * MAX_RECOVERIES + 6) as usize);
                let event = desktop.perform(&action);
                action = controller.capture_next(event);
            }
        }
    }
}

fn controller(mode: OutputMode) -> CaptureDXGI {
    CaptureDXGI::new(0, mode, Ok(duplication(1920, 1080, 7))).unwrap()
}

#[test]
fn failure_codes_fall_into_three_classes() {
    assert_eq!(DXGI_ERROR_ACCESS_LOST as u32, 0x887A_0026);
    assert_eq!(DXGI_ERROR_DEVICE_REMOVED as u32, 0x887A_0005);
    assert_eq!(DXGI_ERROR_INVALID_CALL as u32, 0x887A_0001);
    assert_eq!(DXGI_ERROR_WAIT_TIMEOUT as u32, 0x887A_0027);
    assert_eq!(classify(DXGI_ERROR_ACCESS_LOST), FailureClass::DeviceLost);
    assert_eq!(classify(DXGI_ERROR_DEVICE_REMOVED), FailureClass::DeviceLost);
    assert_eq!(classify(DXGI_ERROR_INVALID_CALL), FailureClass::DeviceLost);
    assert_eq!(classify(DXGI_ERROR_WAIT_TIMEOUT), FailureClass::Transient);
    for code in [
        DXGI_ERROR_MODE_CHANGE_IN_PROGRESS,
        E_UNEXPECTED,
        E_ACCESSDENIED,
        DXGI_ERROR_UNSUPPORTED,
        DXGI_ERROR_SESSION_DISCONNECTED,
        E_INVALIDARG,
        DXGI_ERROR_NOT_CURRENTLY_AVAILABLE,
        DXGI_ERROR_NOT_FOUND,
        0,
        1,
        -1,
        i32::MIN,
        i32::MAX,
    ] {
        assert_eq!(classify(code), FailureClass::Fatal, "code {:#x}", code);
    }
}

#[test]
fn controller_needs_a_duplication() {
    for error in [
        AcquireError::AdapterNotFound,
        AcquireError::DeviceCreationFailed,
        AcquireError::DuplicationUnavailable,
    ] {
        assert!(CaptureDXGI::new(0, OutputMode::SystemMemory, Err(error)).is_none());
        assert!(CaptureDXGI::new_by_luid(Luid(7), 0, OutputMode::SystemMemory, Err(error)).is_none());
    }
}

#[test]
fn new_controller_is_idle_and_has_no_size_yet() {
    let controller = CaptureDXGI::new(2, OutputMode::TextureHandle, Ok(duplication(1920, 1080, 7))).unwrap();
    assert_eq!(controller.width(), 0);
    assert_eq!(controller.height(), 0);
    let state = controller.state();
    assert_eq!(state.phase, Phase::Idle);
    assert_eq!(state.capture_monitor_index, 2);
    assert_eq!(state.output_mode, OutputMode::TextureHandle);
    assert_eq!(state.staging_texture, None);
    assert_eq!(state.duplicator, Some(duplication(1920, 1080, 7)));
    assert!(!state.frame_held);
}

#[test]
fn controller_by_luid_needs_a_duplication_on_that_adapter() {
    let made = CaptureDXGI::new_by_luid(Luid(7), 1, OutputMode::SystemMemory, Ok(duplication(800, 600, 7)));
    assert_eq!(made.unwrap().get_luid(), Some(Luid(7)));
    let made = CaptureDXGI::new_by_luid(Luid(8), 1, OutputMode::SystemMemory, Ok(duplication(800, 600, 7)));
    assert!(made.is_none());
}

#[test]
fn first_capture_creates_copies_releases_and_maps() {
    let mut controller = controller(OutputMode::SystemMemory);
    let mut desktop = Desktop::with_frames(vec![Ok((1000, frame(1920, 1080)))]);
    let (outcome, asked) = capture(&mut controller, &mut desktop, 16, false);
    let texture = StagingTexture::for_frame(frame(1920, 1080));
    assert_eq!(
        asked,
        vec![
            CaptureAction::AcquireFrame { timeout_ms: 16 },
            CaptureAction::CreateStaging { texture },
            CaptureAction::CopyFrame { target: CopyTarget::MappingBuffer },
            CaptureAction::ReleaseFrame,
            CaptureAction::MapStaging,
        ]
    );
    assert_eq!(
        outcome,
        Ok(Some(OtherFrame {
            texture,
            ptr: FrameData::Mapped { row_pitch: 7680, depth_pitch: 7680 * 1080 },
        }))
    );
    assert_eq!(desktop.last_timeout, Some(16));
}

#[test]
fn texture_mode_hands_over_the_handle_without_mapping() {
    let mut controller = controller(OutputMode::TextureHandle);
    let mut desktop = Desktop::with_frames(vec![Ok((1000, frame(1920, 1080)))]);
    let (outcome, asked) = capture(&mut controller, &mut desktop, 33, true);
    let texture = StagingTexture::for_frame(frame(1920, 1080));
    assert_eq!(
        asked,
        vec![
            CaptureAction::AcquireFrame { timeout_ms: 33 },
            CaptureAction::CreateStaging { texture },
            CaptureAction::CopyFrame { target: CopyTarget::FrameBuffer },
            CaptureAction::ReleaseFrame,
        ]
    );
    assert_eq!(outcome, Ok(Some(OtherFrame { texture, ptr: FrameData::Texture })));
    assert_eq!(desktop.maps, 0);
}

#[test]
fn staging_texture_is_created_once_for_frames_of_one_size() {
    let mut controller = controller(OutputMode::TextureHandle);
    let mut desktop = Desktop::with_frames(vec![
        Ok((1, frame(1920, 1080))),
        Ok((2, frame(1920, 1080))),
        Ok((3, frame(1920, 1080))),
    ]);
    for _ in 0..3 {
        let (outcome, _) = capture(&mut controller, &mut desktop, 16, false);
        assert!(matches!(outcome, Ok(Some(_))));
    }
    assert_eq!(desktop.creations, 1);
    assert_eq!(desktop.copies, 3);
    assert_eq!(desktop.releases, 3);
}

#[test]
fn staging_texture_is_recreated_once_when_the_frame_size_changes() {
    let mut controller = controller(OutputMode::TextureHandle);
    let mut desktop = Desktop::with_frames(vec![
        Ok((1, frame(1920, 1080))),
        Ok((2, frame(1280, 720))),
        Ok((3, frame(1280, 720))),
        Ok((4, FrameDesc { width: 1280, height: 720, format: 28 })),
    ]);
    capture(&mut controller, &mut desktop, 16, false);
    assert_eq!(desktop.creations, 1);
    let (outcome, asked) = capture(&mut controller, &mut desktop, 16, false);
    assert_eq!(desktop.creations, 2);
    assert!(asked.contains(&CaptureAction::CreateStaging { texture: StagingTexture::for_frame(frame(1280, 720)) }));
    assert_eq!(outcome.unwrap().unwrap().texture, StagingTexture::for_frame(frame(1280, 720)));
    capture(&mut controller, &mut desktop, 16, false);
    assert_eq!(desktop.creations, 2);
    // Another format at the same size is a mismatch too.
    capture(&mut controller, &mut desktop, 16, false);
    assert_eq!(desktop.creations, 3);
    assert_eq!(controller.state().staging_texture.unwrap().format(), 28);
}

#[test]
fn timeout_redelivers_the_previous_frame() {
    for mode in [OutputMode::SystemMemory, OutputMode::TextureHandle] {
        let mut controller = controller(mode);
        let mut desktop = Desktop::with_frames(vec![
            Ok((1, frame(1920, 1080))),
            Err(DXGI_ERROR_WAIT_TIMEOUT),
        ]);
        let (first, _) = capture(&mut controller, &mut desktop, 16, false);
        let content = desktop.staged;
        let (copies, creations, releases) = (desktop.copies, desktop.creations, desktop.releases);
        let (second, asked) = capture(&mut controller, &mut desktop, 16, false);
        assert!(first.unwrap().is_some());
        assert_eq!(second, first);
        // Nothing wrote the staging texture in between.
        assert_eq!(desktop.staged, content);
        assert_eq!((desktop.copies, desktop.creations, desktop.releases), (copies, creations, releases));
        let expected = match mode {
            OutputMode::SystemMemory => {
                vec![CaptureAction::AcquireFrame { timeout_ms: 16 }, CaptureAction::MapStaging]
            }
            OutputMode::TextureHandle => vec![CaptureAction::AcquireFrame { timeout_ms: 16 }],
        };
        assert_eq!(asked, expected);
    }
}

#[test]
fn timeout_before_any_frame_is_no_new_frame() {
    for skip in [false, true] {
        let mut controller = controller(OutputMode::SystemMemory);
        let mut desktop = Desktop::with_frames(vec![Err(DXGI_ERROR_WAIT_TIMEOUT)]);
        let (outcome, asked) = capture(&mut controller, &mut desktop, 16, skip);
        assert_eq!(outcome, Err(CaptureError::NoNewFrame));
        assert_eq!(asked, vec![CaptureAction::AcquireFrame { timeout_ms: 16 }]);
    }
}

#[test]
fn timeout_with_skip_gives_no_frame() {
    let mut controller = controller(OutputMode::SystemMemory);
    let mut desktop = Desktop::with_frames(vec![Ok((1, frame(1920, 1080))), Err(DXGI_ERROR_WAIT_TIMEOUT)]);
    capture(&mut controller, &mut desktop, 16, true);
    let (outcome, asked) = capture(&mut controller, &mut desktop, 16, true);
    assert_eq!(outcome, Ok(None));
    assert_eq!(asked, vec![CaptureAction::AcquireFrame { timeout_ms: 16 }]);
}

#[test]
fn unchanged_frame_is_skipped_and_released_once() {
    let mut controller = controller(OutputMode::SystemMemory);
    let mut desktop = Desktop::with_frames(vec![Ok((1, frame(1920, 1080))), Ok((0, frame(1920, 1080)))]);
    capture(&mut controller, &mut desktop, 16, true);
    let before = (desktop.releases, desktop.copies, desktop.staged);
    let size = (controller.width(), controller.height());
    let (outcome, asked) = capture(&mut controller, &mut desktop, 16, true);
    assert_eq!(outcome, Ok(None));
    assert_eq!(asked, vec![CaptureAction::AcquireFrame { timeout_ms: 16 }, CaptureAction::ReleaseFrame]);
    assert_eq!(desktop.releases, before.0 + 1);
    assert_eq!(desktop.copies, before.1);
    assert_eq!(desktop.staged, before.2);
    assert!(!desktop.held);
    assert_eq!((controller.width(), controller.height()), size);
}

#[test]
fn unchanged_frame_before_any_copy_is_no_new_frame() {
    let mut controller = controller(OutputMode::SystemMemory);
    let mut desktop = Desktop::with_frames(vec![Ok((0, frame(1920, 1080)))]);
    let (outcome, asked) = capture(&mut controller, &mut desktop, 16, true);
    assert_eq!(outcome, Err(CaptureError::NoNewFrame));
    assert_eq!(asked, vec![CaptureAction::AcquireFrame { timeout_ms: 16 }, CaptureAction::ReleaseFrame]);
    assert_eq!(desktop.releases, 1);
    assert!(!desktop.held);
    // The size was not refreshed by a frame that was skipped.
    assert_eq!((controller.width(), controller.height()), (0, 0));
}

#[test]
fn unchanged_frame_is_copied_when_nothing_is_skipped() {
    let mut controller = controller(OutputMode::TextureHandle);
    let mut desktop = Desktop::with_frames(vec![Ok((0, frame(1920, 1080)))]);
    let (outcome, _) = capture(&mut controller, &mut desktop, 16, false);
    assert!(matches!(outcome, Ok(Some(_))));
    assert_eq!(desktop.copies, 1);
}

#[test]
fn changed_frame_is_copied_when_unchanged_ones_are_skipped() {
    let mut controller = controller(OutputMode::TextureHandle);
    let mut desktop = Desktop::with_frames(vec![Ok((5, frame(1920, 1080)))]);
    let (outcome, _) = capture(&mut controller, &mut desktop, 16, true);
    assert!(matches!(outcome, Ok(Some(_))));
    assert_eq!(desktop.copies, 1);
}

#[test]
fn failed_release_of_a_skipped_frame_is_classified() {
    let mut controller = controller(OutputMode::SystemMemory);
    let mut desktop = Desktop::with_frames(vec![Ok((0, frame(1920, 1080)))]);
    desktop.release_result = Err(E_ACCESSDENIED);
    let (outcome, asked) = capture(&mut controller, &mut desktop, 16, true);
    assert_eq!(outcome, Err(CaptureError::Fatal { code: E_ACCESSDENIED }));
    assert_eq!(
        asked,
        vec![
            CaptureAction::AcquireFrame { timeout_ms: 16 },
            CaptureAction::ReleaseFrame,
            CaptureAction::ReleaseFrame,
        ]
    );
}

#[test]
fn lost_access_is_recovered_without_the_caller_seeing_it() {
    for code in [DXGI_ERROR_ACCESS_LOST, DXGI_ERROR_DEVICE_REMOVED, DXGI_ERROR_INVALID_CALL] {
        let mut controller = controller(OutputMode::TextureHandle);
        let mut desktop = Desktop::with_frames(vec![
            Ok((1, frame(1920, 1080))),
            Err(code),
            Ok((2, frame(2560, 1440))),
        ]);
        desktop.sessions.push_back(Ok(duplication(2560, 1440, 9)));
        capture(&mut controller, &mut desktop, 16, false);
        let (outcome, asked) = capture(&mut controller, &mut desktop, 16, false);
        let texture = StagingTexture::for_frame(frame(2560, 1440));
        assert_eq!(outcome, Ok(Some(OtherFrame { texture, ptr: FrameData::Texture })));
        assert_eq!(
            asked,
            vec![
                CaptureAction::AcquireFrame { timeout_ms: 16 },
                CaptureAction::AcquireSession { monitor_index: 0 },
                CaptureAction::AcquireFrame { timeout_ms: 16 },
                CaptureAction::CreateStaging { texture },
                CaptureAction::CopyFrame { target: CopyTarget::FrameBuffer },
                CaptureAction::ReleaseFrame,
            ]
        );
        assert_eq!(desktop.session_acquisitions, 1);
        assert_eq!(controller.state().duplicator, Some(duplication(2560, 1440, 9)));
        assert_eq!(controller.get_luid(), Some(Luid(9)));
        assert_eq!((controller.width(), controller.height()), (2560, 1440));
    }
}

#[test]
fn lost_access_discards_the_duplication_at_once() {
    let mut controller = controller(OutputMode::TextureHandle);
    assert_eq!(controller.capture(16, false), CaptureAction::AcquireFrame { timeout_ms: 16 });
    let action = controller.capture_next(CaptureEvent::Failed { code: DXGI_ERROR_ACCESS_LOST });
    assert_eq!(action, CaptureAction::AcquireSession { monitor_index: 0 });
    assert_eq!(controller.state().duplicator, None);
    assert_eq!(controller.get_luid(), None);
    assert_eq!(controller.state().phase, Phase::AwaitSession);
}

#[test]
fn new_session_leaves_no_staging_texture_of_the_old_device() {
    let mut controller = controller(OutputMode::TextureHandle);
    let mut desktop = Desktop::with_frames(vec![
        Ok((1, frame(1920, 1080))),
        Err(DXGI_ERROR_ACCESS_LOST),
        Err(DXGI_ERROR_WAIT_TIMEOUT),
    ]);
    desktop.sessions.push_back(Ok(duplication(1920, 1080, 7)));
    capture(&mut controller, &mut desktop, 16, false);
    assert!(controller.state().staging_texture.is_some());
    // After the recovery nothing was copied yet, so a timeout has nothing to deliver.
    let (outcome, _) = capture(&mut controller, &mut desktop, 16, false);
    assert_eq!(outcome, Err(CaptureError::NoNewFrame));
    assert_eq!(controller.state().staging_texture, None);
}

#[test]
fn failed_reacquisition_is_reported_without_retry() {
    for (error, reported) in [
        (AcquireError::AdapterNotFound, CaptureError::AdapterNotFound),
        (AcquireError::DeviceCreationFailed, CaptureError::DeviceCreationFailed),
        (AcquireError::DuplicationUnavailable, CaptureError::DuplicationUnavailable),
    ] {
        let mut controller = controller(OutputMode::SystemMemory);
        let mut desktop = Desktop::with_frames(vec![Err(DXGI_ERROR_ACCESS_LOST)]);
        desktop.sessions.push_back(Err(error));
        let (outcome, asked) = capture(&mut controller, &mut desktop, 16, false);
        assert_eq!(outcome, Err(reported));
        assert_eq!(
            asked,
            vec![
                CaptureAction::AcquireFrame { timeout_ms: 16 },
                CaptureAction::AcquireSession { monitor_index: 0 },
            ]
        );
        assert_eq!(controller.state().duplicator, None);
    }
}

#[test]
fn lost_device_takes_the_staging_texture_with_it() {
    let mut controller = controller(OutputMode::TextureHandle);
    let mut desktop = Desktop::with_frames(vec![Ok((1, frame(1920, 1080))), Err(DXGI_ERROR_DEVICE_REMOVED)]);
    desktop.sessions.push_back(Err(AcquireError::DeviceCreationFailed));
    capture(&mut controller, &mut desktop, 16, false);
    assert!(controller.state().staging_texture.is_some());
    let (outcome, _) = capture(&mut controller, &mut desktop, 16, false);
    assert_eq!(outcome, Err(CaptureError::DeviceCreationFailed));
    assert_eq!(controller.state().duplicator, None);
    assert_eq!(controller.state().staging_texture, None);
}

#[test]
fn capture_without_duplication_acquires_a_session_first() {
    let mut controller = controller(OutputMode::TextureHandle);
    let mut desktop = Desktop::with_frames(vec![Err(DXGI_ERROR_ACCESS_LOST), Ok((1, frame(1920, 1080)))]);
    desktop.sessions.push_back(Err(AcquireError::DuplicationUnavailable));
    desktop.sessions.push_back(Ok(duplication(1920, 1080, 7)));
    let (outcome, _) = capture(&mut controller, &mut desktop, 16, false);
    assert_eq!(outcome, Err(CaptureError::DuplicationUnavailable));
    // The caller decides to call again.
    let (outcome, asked) = capture(&mut controller, &mut desktop, 20, false);
    assert!(matches!(outcome, Ok(Some(_))));
    assert_eq!(asked[0], CaptureAction::AcquireSession { monitor_index: 0 });
    assert_eq!(asked[1], CaptureAction::AcquireFrame { timeout_ms: 20 });
}

#[test]
fn persistent_device_loss_is_reported_after_the_recovery_limit() {
    let mut controller = controller(OutputMode::SystemMemory);
    let mut desktop = Desktop::new();
    for _ in 0..10 {
        desktop.frames.push_back(Err(DXGI_ERROR_DEVICE_REMOVED));
        desktop.sessions.push_back(Ok(duplication(1920, 1080, 7)));
    }
    let (outcome, asked) = capture(&mut controller, &mut desktop, 16, false);
    assert_eq!(outcome, Err(CaptureError::DeviceLost { code: DXGI_ERROR_DEVICE_REMOVED }));
    assert_eq!(desktop.session_acquisitions, MAX_RECOVERIES as usize);
    assert_eq!(desktop.frame_acquisitions, MAX_RECOVERIES as usize + 1);
    assert_eq!(asked.len(), 2 * MAX_RECOVERIES as usize + 1);
    assert_eq!(controller.state().duplicator, None);
    // The next call starts with all its recoveries again.
    let (outcome, _) = capture(&mut controller, &mut desktop, 16, false);
    assert_eq!(outcome, Err(CaptureError::DeviceLost { code: DXGI_ERROR_DEVICE_REMOVED }));
    assert_eq!(desktop.session_acquisitions, 2 * MAX_RECOVERIES as usize + 1);
}

#[test]
fn unrecognized_code_is_reported_without_retry() {
    for code in [E_ACCESSDENIED, DXGI_ERROR_MODE_CHANGE_IN_PROGRESS, E_UNEXPECTED, 0x1234_5678] {
        let mut controller = controller(OutputMode::SystemMemory);
        let mut desktop = Desktop::with_frames(vec![Err(code), Ok((1, frame(1920, 1080)))]);
        let before = controller.state().duplicator.clone();
        let (outcome, asked) = capture(&mut controller, &mut desktop, 16, false);
        assert_eq!(outcome, Err(CaptureError::Fatal { code }));
        assert_eq!(
            asked,
            vec![CaptureAction::AcquireFrame { timeout_ms: 16 }, CaptureAction::ReleaseFrame]
        );
        assert_eq!(desktop.frame_acquisitions, 1);
        assert_eq!(desktop.session_acquisitions, 0);
        assert!(!desktop.held);
        assert_eq!(controller.state().duplicator, before);
    }
}

#[test]
fn fatal_failure_of_staging_creation_releases_the_frame() {
    let mut controller = controller(OutputMode::SystemMemory);
    let mut desktop = Desktop::with_frames(vec![Ok((1, frame(1920, 1080)))]);
    desktop.staging_result = Err(E_INVALIDARG);
    let (outcome, asked) = capture(&mut controller, &mut desktop, 16, false);
    assert_eq!(outcome, Err(CaptureError::Fatal { code: E_INVALIDARG }));
    assert_eq!(asked.last(), Some(&CaptureAction::ReleaseFrame));
    assert_eq!(desktop.releases, 1);
    assert!(!desktop.held);
    assert_eq!(controller.state().staging_texture, None);
}

#[test]
fn fatal_failure_of_the_copy_releases_the_frame() {
    let mut controller = controller(OutputMode::SystemMemory);
    let mut desktop = Desktop::with_frames(vec![Ok((1, frame(1920, 1080)))]);
    desktop.copy_result = Err(E_UNEXPECTED);
    let (outcome, asked) = capture(&mut controller, &mut desktop, 16, false);
    assert_eq!(outcome, Err(CaptureError::Fatal { code: E_UNEXPECTED }));
    assert_eq!(asked.last(), Some(&CaptureAction::ReleaseFrame));
    assert!(!desktop.held);
    assert_eq!(desktop.maps, 0);
}

#[test]
fn device_loss_during_the_copy_is_recovered() {
    let mut controller = controller(OutputMode::TextureHandle);
    let mut desktop = Desktop::with_frames(vec![Ok((1, frame(1920, 1080))), Ok((2, frame(1920, 1080)))]);
    desktop.staging_result = Err(DXGI_ERROR_DEVICE_REMOVED);
    desktop.sessions.push_back(Ok(duplication(1920, 1080, 7)));
    let mut asked = Vec::new();
    let mut action = controller.capture(16, false);
    let outcome = loop {
        match action {
            CaptureAction::Finish { outcome } => break outcome,
            _ => {
                asked.push(action);
                let event = desktop.perform(&action);
                if matches!(action, CaptureAction::AcquireSession { .. }) {
                    // The new device creates textures again.
                    desktop.staging_result = Ok(());
                }
                action = controller.capture_next(event);
            }
        }
    };
    assert!(matches!(outcome, Ok(Some(_))));
    assert_eq!(asked.iter().filter(|a| matches!(a, CaptureAction::AcquireSession { .. })).count(), 1);
    assert!(!desktop.held);
}

#[test]
fn failed_release_after_the_copy_is_reported() {
    let mut controller = controller(OutputMode::SystemMemory);
    let mut desktop = Desktop::with_frames(vec![Ok((1, frame(1920, 1080)))]);
    desktop.release_result = Err(DXGI_ERROR_ACCESS_LOST);
    let (outcome, asked) = capture(&mut controller, &mut desktop, 16, false);
    assert_eq!(outcome, Err(CaptureError::Fatal { code: DXGI_ERROR_ACCESS_LOST }));
    assert_eq!(asked.iter().filter(|a| **a == CaptureAction::ReleaseFrame).count(), 1);
    assert_eq!(desktop.maps, 0);
}

#[test]
fn failed_mapping_is_reported() {
    let mut controller = controller(OutputMode::SystemMemory);
    let mut desktop = Desktop::with_frames(vec![Ok((1, frame(1920, 1080)))]);
    desktop.map_result = Err(E_ACCESSDENIED);
    let (outcome, _) = capture(&mut controller, &mut desktop, 16, false);
    assert_eq!(outcome, Err(CaptureError::Fatal { code: E_ACCESSDENIED }));
    assert!(!desktop.held);
}

#[test]
fn size_is_that_of_the_output_after_a_capture() {
    let mut controller = CaptureDXGI::new(0, OutputMode::TextureHandle, Ok(duplication(3840, 2160, 7))).unwrap();
    // The frame's texture has another size than the output reports.
    let mut desktop = Desktop::with_frames(vec![Ok((1, frame(1920, 1080)))]);
    assert_eq!((controller.width(), controller.height()), (0, 0));
    capture(&mut controller, &mut desktop, 16, false);
    assert_eq!((controller.width(), controller.height()), (3840, 2160));
    assert_eq!(controller.state().staging_texture, Some(StagingTexture::for_frame(frame(1920, 1080))));
}

#[test]
fn size_is_refreshed_as_soon_as_the_frame_is_acquired() {
    let mut controller = controller(OutputMode::TextureHandle);
    controller.capture(16, false);
    controller.capture_next(CaptureEvent::FrameAcquired { last_present_time: 1, desc: frame(1920, 1080) });
    assert_eq!((controller.width(), controller.height()), (1920, 1080));
}

#[test]
fn second_capture_before_the_end_of_the_first_is_rejected() {
    let mut controller = controller(OutputMode::SystemMemory);
    assert_eq!(controller.capture(16, false), CaptureAction::AcquireFrame { timeout_ms: 16 });
    let action = controller.capture_next(CaptureEvent::FrameAcquired { last_present_time: 1, desc: frame(1920, 1080) });
    assert!(matches!(action, CaptureAction::CreateStaging { .. }));
    assert!(controller.state().frame_held);
    let before = format!("{:?}", controller.state());
    assert_eq!(controller.capture(50, true), CaptureAction::Rejected);
    assert_eq!(format!("{:?}", controller.state()), before);
    // The first call goes on as if nothing had happened.
    assert_eq!(
        controller.capture_next(CaptureEvent::Completed),
        CaptureAction::CopyFrame { target: CopyTarget::MappingBuffer }
    );
}

#[test]
fn events_out_of_turn_are_rejected() {
    let mut controller = controller(OutputMode::SystemMemory);
    // No call is under way.
    assert_eq!(controller.capture_next(CaptureEvent::Completed), CaptureAction::Rejected);
    assert_eq!(
        controller.capture_next(CaptureEvent::FrameAcquired { last_present_time: 1, desc: frame(1, 1) }),
        CaptureAction::Rejected
    );
    controller.capture(16, false);
    let before = format!("{:?}", controller.state());
    for event in [
        CaptureEvent::Completed,
        CaptureEvent::Mapped { row_pitch: 4, depth_pitch: 4 },
        CaptureEvent::SessionAcquired { duplication: duplication(1, 1, 1) },
        CaptureEvent::SessionFailed { error: AcquireError::AdapterNotFound },
    ] {
        assert_eq!(controller.capture_next(event), CaptureAction::Rejected);
        assert_eq!(format!("{:?}", controller.state()), before);
    }
}

#[test]
fn a_frame_is_never_acquired_while_one_is_held() {
    // The desktop answers an acquisition while a frame is held with an invalid
    // call, and a release while none is held as well. Over a long and mixed
    // script neither happens except where a release is made for safety.
    let mut controller = controller(OutputMode::SystemMemory);
    let mut desktop = Desktop::new();
    let script: Vec<Result<(i64, FrameDesc), i32>> = vec![
        Ok((1, frame(1920, 1080))),
        Ok((0, frame(1920, 1080))),
        Err(DXGI_ERROR_WAIT_TIMEOUT),
        Ok((2, frame(1280, 720))),
        Err(DXGI_ERROR_ACCESS_LOST),
        Ok((3, frame(1280, 720))),
        Err(E_ACCESSDENIED),
        Ok((0, frame(1280, 720))),
        Ok((4, frame(1920, 1080))),
    ];
    desktop.frames = script.into();
    desktop.sessions.push_back(Ok(duplication(1280, 720, 7)));
    let mut invalid_acquisitions = 0;
    for round in 0..8 {
        let skip = round % 2 == 1;
        let mut action = controller.capture(16, skip);
        loop {
            match action {
                CaptureAction::Finish { .. } => break,
                CaptureAction::AcquireFrame { .. } => {
                    if desktop.held {
                        invalid_acquisitions += 1;
                    }
                    let event = desktop.perform(&action);
                    action = controller.capture_next(event);
                }
                _ => {
                    let event = desktop.perform(&action);
                    action = controller.capture_next(event);
                }
            }
        }
        assert!(!desktop.held, "round {} left a frame behind", round);
    }
    assert_eq!(invalid_acquisitions, 0);
    assert!(desktop.frames.is_empty());
}

#[test]
fn already_acquired_is_a_well_defined_failure() {
    // Acquiring while a frame is held is answered with an invalid call, which is
    // listed among the codes of a lost device.
    let mut desktop = Desktop::with_frames(vec![Ok((1, frame(1, 1))), Ok((2, frame(1, 1)))]);
    let first = desktop.perform(&CaptureAction::AcquireFrame { timeout_ms: 0 });
    assert!(matches!(first, CaptureEvent::FrameAcquired { .. }));
    let second = desktop.perform(&CaptureAction::AcquireFrame { timeout_ms: 0 });
    assert_eq!(second, CaptureEvent::Failed { code: DXGI_ERROR_INVALID_CALL });
    assert_eq!(classify(DXGI_ERROR_INVALID_CALL), FailureClass::DeviceLost);
}

#[test]
fn monitor_index_is_passed_on_to_the_acquisition() {
    let mut controller = CaptureDXGI::new(4, OutputMode::SystemMemory, Ok(duplication(1920, 1080, 7))).unwrap();
    controller.capture(16, false);
    assert_eq!(
        controller.capture_next(CaptureEvent::Failed { code: DXGI_ERROR_ACCESS_LOST }),
        CaptureAction::AcquireSession { monitor_index: 4 }
    );
}

#[test]
fn large_dimensions_wrap_in_the_signed_accessors() {
    let native = NativeAdapterDesc {
        description: Vec::new(),
        vendor_id: 1,
        device_id: 1,
        flags: 0,
        luid_low: 0,
        luid_high: 0,
    };
    let wide = bind_output(
        DesktopRect { left: i32::MIN, top: 0, right: i32::MAX, bottom: 1 },
        Some(&native),
    )
    .unwrap();
    let mut controller = CaptureDXGI::new(0, OutputMode::TextureHandle, Ok(wide)).unwrap();
    controller.capture(16, false);
    controller.capture_next(CaptureEvent::FrameAcquired { last_present_time: 1, desc: frame(1, 1) });
    assert_eq!(controller.state().width, u32::MAX);
    assert_eq!(controller.width(), -1);
    assert_eq!(controller.height(), 1);
}
