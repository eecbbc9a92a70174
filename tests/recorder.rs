use whispering::device::{catalog_from_listing, listing_is_malformed, DeviceDescriptor};
use whispering::engine::{copy_samples, CaptureHandle};
use whispering::error::RecorderError;
use whispering::host::AudioHost;
use whispering::recorder::Recorder;
use whispering::slot::{RecordingSession, SessionSlot, SessionStatus};

fn desc(id: &str) -> DeviceDescriptor {
    DeviceDescriptor {
        id: id.to_string(),
        label: format!("Microphone {}", id),
        channels: 1,
        min_sample_rate: 16000,
        max_sample_rate: 48000,
    }
}

fn recorder_with(ids: &[&str]) -> Recorder {
    let mut r = Recorder::new();
    for id in ids {
        assert!(r.attach_device(desc(id), true));
    }
    r
}

#[test]
fn init_then_close_then_init_again() {
    let mut r = recorder_with(&["mic"]);
    let mic = "mic".to_string();
    let id = r.init_recording_session(&mic).unwrap();
    assert_eq!(r.close_recording_session(id), Ok(()));
    assert_eq!(r.get_current_recording_id(), None);
    let id2 = r.init_recording_session(&mic).unwrap();
    assert_ne!(id, id2);
    assert_eq!(r.get_current_recording_id(), Some(id2));
}

#[test]
fn second_init_is_refused() {
    let mut r = recorder_with(&["mic", "usb"]);
    let id = r.init_recording_session(&"mic".to_string()).unwrap();
    assert_eq!(
        r.init_recording_session(&"usb".to_string()),
        Err(RecorderError::SessionAlreadyActive)
    );
    assert_eq!(r.get_current_recording_id(), Some(id));
    assert_eq!(r.current_status(), Some(SessionStatus::Created));
}

#[test]
fn start_with_stale_id_is_a_mismatch() {
    let mut r = recorder_with(&["mic"]);
    let mic = "mic".to_string();
    let id = r.init_recording_session(&mic).unwrap();
    r.close_recording_session(id).unwrap();
    assert_eq!(r.start_recording(id), Err(RecorderError::SessionMismatch));
    let fresh = r.init_recording_session(&mic).unwrap();
    assert_eq!(r.start_recording(id), Err(RecorderError::SessionMismatch));
    assert_eq!(r.current_status(), Some(SessionStatus::Created));
    assert_eq!(r.start_recording(fresh), Ok(()));
}

#[test]
fn cancel_right_after_start() {
    let mut r = recorder_with(&["mic"]);
    let id = r.init_recording_session(&"mic".to_string()).unwrap();
    r.start_recording(id).unwrap();
    assert_eq!(r.cancel_recording(id), Ok(()));
    assert_eq!(r.current_status(), Some(SessionStatus::Cancelled));
    assert_eq!(r.get_current_recording_id(), Some(id));
    assert!(matches!(r.stop_recording(id), Err(RecorderError::InvalidTransition)));
    assert_eq!(r.close_recording_session(id), Ok(()));
    assert_eq!(r.get_current_recording_id(), None);
}

#[test]
fn cancel_discards_delivered_samples() {
    let mut r = recorder_with(&["mic"]);
    let id = r.init_recording_session(&"mic".to_string()).unwrap();
    r.start_recording(id).unwrap();
    assert!(r.deliver_samples(id, &[1, 2, 3]));
    r.cancel_recording(id).unwrap();
    assert!(!r.deliver_samples(id, &[4]));
    assert_eq!(r.cancel_recording(id), Err(RecorderError::InvalidTransition));
}

#[test]
fn stop_twice() {
    let mut r = recorder_with(&["mic"]);
    let id = r.init_recording_session(&"mic".to_string()).unwrap();
    r.start_recording(id).unwrap();
    assert!(r.deliver_samples(id, &[5, -7]));
    assert!(r.deliver_samples(id, &[9]));
    let a = r.stop_recording(id).unwrap();
    assert_eq!(a.session_id, id);
    assert_eq!(a.samples, vec![5, -7, 9]);
    assert!(matches!(r.stop_recording(id), Err(RecorderError::InvalidTransition)));
    assert_eq!(r.current_status(), Some(SessionStatus::Stopped));
}

#[test]
fn stop_with_no_frames_gives_an_empty_artifact() {
    let mut r = recorder_with(&["mic"]);
    let id = r.init_recording_session(&"mic".to_string()).unwrap();
    r.start_recording(id).unwrap();
    let a = r.stop_recording(id).unwrap();
    assert!(a.samples.is_empty());
}

#[test]
fn enumerate_with_no_devices_is_empty() {
    let r = Recorder::new();
    let list = r.enumerate_recording_devices().unwrap();
    assert!(list.is_empty());
}

#[test]
fn enumerate_lists_every_attached_device() {
    let r = recorder_with(&["a", "b"]);
    let list = r.enumerate_recording_devices().unwrap();
    assert_eq!(list.len(), 2);
    assert_eq!(list[0].id, "a");
    assert_eq!(list[1].id, "b");
    assert_eq!(list[1].label, "Microphone b");
}

#[test]
fn enumerate_on_unreachable_host_fails() {
    let mut r = recorder_with(&["a"]);
    r.set_host_reachable(false);
    assert!(matches!(r.enumerate_recording_devices(), Err(RecorderError::DeviceQueryError)));
}

#[test]
fn busy_device_leaves_slot_empty() {
    let mut r = recorder_with(&["mic", "usb"]);
    assert!(r.set_device_claimed_elsewhere(&"mic".to_string(), true));
    assert_eq!(r.init_recording_session(&"mic".to_string()), Err(RecorderError::DeviceBusy));
    assert_eq!(r.get_current_recording_id(), None);
    assert!(r.init_recording_session(&"usb".to_string()).is_ok());
}

#[test]
fn unknown_device_is_unavailable() {
    let mut r = recorder_with(&["mic"]);
    assert_eq!(
        r.init_recording_session(&"nope".to_string()),
        Err(RecorderError::DeviceUnavailable)
    );
    assert_eq!(r.get_current_recording_id(), None);
}

#[test]
fn unsupported_format_fails_negotiation() {
    let mut r = Recorder::new();
    assert!(r.attach_device(desc("odd"), false));
    assert_eq!(
        r.init_recording_session(&"odd".to_string()),
        Err(RecorderError::FormatNegotiationFailed)
    );
    assert_eq!(r.get_current_recording_id(), None);
}

#[test]
fn start_twice_is_invalid() {
    let mut r = recorder_with(&["mic"]);
    let id = r.init_recording_session(&"mic".to_string()).unwrap();
    r.start_recording(id).unwrap();
    assert_eq!(r.start_recording(id), Err(RecorderError::InvalidTransition));
    assert_eq!(r.current_status(), Some(SessionStatus::Recording));
}

#[test]
fn stop_before_start_is_invalid() {
    let mut r = recorder_with(&["mic"]);
    let id = r.init_recording_session(&"mic".to_string()).unwrap();
    assert!(matches!(r.stop_recording(id), Err(RecorderError::InvalidTransition)));
    assert_eq!(r.cancel_recording(id), Ok(()));
}

#[test]
fn start_after_unplug_rolls_back() {
    let mut r = recorder_with(&["mic"]);
    let mic = "mic".to_string();
    let id = r.init_recording_session(&mic).unwrap();
    assert!(r.detach_device(&mic));
    assert_eq!(r.start_recording(id), Err(RecorderError::DeviceUnavailable));
    assert_eq!(r.get_current_recording_id(), None);
    assert!(r.attach_device(desc("mic"), true));
    assert!(r.init_recording_session(&mic).is_ok());
}

#[test]
fn close_is_repeatable_and_rejects_unknown_ids() {
    let mut r = recorder_with(&["mic"]);
    let id = r.init_recording_session(&"mic".to_string()).unwrap();
    r.start_recording(id).unwrap();
    assert_eq!(r.close_recording_session(id + 100), Err(RecorderError::SessionMismatch));
    assert_eq!(r.close_recording_session(0), Err(RecorderError::SessionMismatch));
    assert_eq!(r.get_current_recording_id(), Some(id));
    assert_eq!(r.current_status(), Some(SessionStatus::Recording));
    assert_eq!(r.close_recording_session(id), Ok(()));
    assert_eq!(r.close_recording_session(id), Ok(()));
    assert_eq!(r.get_current_recording_id(), None);
}

#[test]
fn closing_an_old_id_leaves_the_new_session_alone() {
    let mut r = recorder_with(&["mic"]);
    let mic = "mic".to_string();
    let first = r.init_recording_session(&mic).unwrap();
    assert_eq!(first, 1);
    r.close_recording_session(first).unwrap();
    let second = r.init_recording_session(&mic).unwrap();
    assert_eq!(second, 2);
    assert_eq!(r.close_recording_session(first), Ok(()));
    assert_eq!(r.get_current_recording_id(), Some(second));
}

#[test]
fn closing_releases_the_device() {
    let mut r = recorder_with(&["mic"]);
    let mic = "mic".to_string();
    let id = r.init_recording_session(&mic).unwrap();
    r.start_recording(id).unwrap();
    r.close_recording_session(id).unwrap();
    let id2 = r.init_recording_session(&mic).unwrap();
    assert_eq!(r.start_recording(id2), Ok(()));
}

#[test]
fn commands_with_a_wrong_id_are_mismatches() {
    let mut r = recorder_with(&["mic"]);
    let id = r.init_recording_session(&"mic".to_string()).unwrap();
    assert_eq!(r.start_recording(id + 1), Err(RecorderError::SessionMismatch));
    assert!(matches!(r.stop_recording(id + 1), Err(RecorderError::SessionMismatch)));
    assert_eq!(r.cancel_recording(id + 1), Err(RecorderError::SessionMismatch));
    assert!(!r.deliver_samples(id + 1, &[1]));
    assert_eq!(r.current_status(), Some(SessionStatus::Created));
}

#[test]
fn only_one_session_records_at_a_time() {
    let mut r = recorder_with(&["a", "b"]);
    let id = r.init_recording_session(&"a".to_string()).unwrap();
    r.start_recording(id).unwrap();
    assert_eq!(r.init_recording_session(&"b".to_string()), Err(RecorderError::SessionAlreadyActive));
    assert_eq!(r.get_current_recording_id(), Some(id));
}

#[test]
fn shutdown_clears_the_live_session() {
    let mut r = recorder_with(&["mic"]);
    let mic = "mic".to_string();
    let id = r.init_recording_session(&mic).unwrap();
    r.start_recording(id).unwrap();
    r.shutdown();
    assert_eq!(r.get_current_recording_id(), None);
    assert!(r.init_recording_session(&mic).is_ok());
}

#[test]
fn attach_refuses_duplicates_and_invalid_descriptors() {
    let mut r = recorder_with(&["a"]);
    assert!(!r.attach_device(desc("a"), true));
    assert!(!r.attach_device(desc(""), true));
    let mut bad = desc("c");
    bad.min_sample_rate = 48000;
    bad.max_sample_rate = 8000;
    assert!(!r.attach_device(bad, true));
    assert!(!r.detach_device(&"zz".to_string()));
    assert_eq!(r.enumerate_recording_devices().unwrap().len(), 1);
}

#[test]
fn catalog_is_all_or_nothing() {
    let good = vec![desc("a"), desc("b")];
    assert!(!listing_is_malformed(&good));
    assert_eq!(catalog_from_listing(Some(good)).unwrap().len(), 2);
    let dup = vec![desc("a"), desc("b"), desc("a")];
    assert!(listing_is_malformed(&dup));
    assert!(matches!(catalog_from_listing(Some(dup)), Err(RecorderError::DeviceQueryError)));
    assert!(matches!(catalog_from_listing(None), Err(RecorderError::DeviceQueryError)));
    assert!(catalog_from_listing(Some(Vec::new())).unwrap().is_empty());
}

#[test]
fn capture_handle_lifecycle() {
    let mut host = AudioHost::new();
    assert!(host.attach_device(desc("mic"), true));
    let mic = "mic".to_string();
    let mut h = CaptureHandle::open(&mut host, &mic).unwrap();
    assert!(host.devices[0].claimed_by_us);
    assert!(matches!(CaptureHandle::open(&mut host, &mic), Err(RecorderError::DeviceBusy)));
    assert!(!h.deliver(&[1]));
    h.begin(&host).unwrap();
    h.begin(&host).unwrap();
    assert!(h.deliver(&[1, 2]));
    assert_eq!(h.finish(), vec![1, 2]);
    assert_eq!(h.buffer, vec![1, 2]);
    h.abort();
    assert!(h.buffer.is_empty());
    h.close(&mut host);
    assert!(!host.devices[0].claimed_by_us);
    h.close(&mut host);
    assert!(!h.open);
    assert_eq!(copy_samples(&[3, 4]), vec![3, 4]);
}

#[test]
fn error_codes_are_distinct() {
    assert_eq!(RecorderError::DeviceUnavailable.code(), "device-not-found");
    assert_eq!(RecorderError::DeviceBusy.code(), "device-busy");
    assert_eq!(RecorderError::SessionMismatch.code(), "session-mismatch");
    assert_eq!(RecorderError::InvalidTransition.code(), "invalid-transition");
    assert_eq!(RecorderError::HostSubsystemError.code(), "host-subsystem-error");
}

fn session(id: u64) -> RecordingSession {
    RecordingSession {
        session_id: id,
        device_id: "mic".to_string(),
        status: SessionStatus::Created,
        handle: CaptureHandle {
            device_id: "mic".to_string(),
            open: true,
            running: false,
            buffer: Vec::new(),
        },
    }
}

#[test]
fn slot_holds_at_most_one_session() {
    let mut slot = SessionSlot::empty();
    assert_eq!(slot.current_id(), None);
    assert_eq!(slot.install(session(4)), Ok(()));
    assert_eq!(slot.install(session(5)), Err(RecorderError::SessionAlreadyActive));
    assert_eq!(slot.current_id(), Some(4));
    assert!(slot.take(5).is_none());
    assert_eq!(slot.current().map(|s| s.session_id), Some(4));
    assert_eq!(slot.take(4).map(|s| s.session_id), Some(4));
    assert!(slot.current().is_none());
    slot.put_back(session(6));
    assert_eq!(slot.current_id(), Some(6));
}
