use vstd::prelude::*;

use crate::device::{descriptor_valid, DeviceDescriptor};
use crate::engine::CaptureHandle;
use crate::error::RecorderError;
use crate::host::{
    claim_outcome, descriptors, with_other_claim, with_our_claim, AudioHost, HostDevice,
};
use crate::slot::{RecordingSession, SessionSlot, SessionStatus};

verus! {

/// What a successful stop hands out: the captured samples of one session.
pub struct Artifact {
    pub session_id: u64,
    pub samples: Vec<i16>,
}

/// The session lifecycle manager: the host model, a slot for at most one
/// session, and the id the next session gets. Every transition goes through
/// `&mut self`, so a shared recorder behind one lock is linearizable.
pub struct Recorder {
    host: AudioHost,
    slot: SessionSlot,
    next_id: u64,
}

/// The invariant of a live session against the host it runs on.
pub open spec fn session_wf(s: RecordingSession, host: AudioHost, next_id: u64) -> bool {
    &&& 0 < s.session_id < next_id
    &&& s.handle.device_id@ == s.device_id@
    &&& s.handle.open
    &&& s.handle.running == (s.status == SessionStatus::Recording)
    &&& (s.status == SessionStatus::Created || s.status == SessionStatus::Cancelled)
        ==> s.handle.buffer@.len() == 0
    &&& forall|i: int|
        0 <= i < host.devices@.len() && #[trigger] host.devices@[i].claimed_by_us
            ==> host.devices@[i].descriptor.id@ == s.device_id@
}

/// No attached device is claimed by the recorder.
pub open spec fn no_claim(host: AudioHost) -> bool {
    forall|i: int| 0 <= i < host.devices@.len() ==> !(#[trigger] host.devices@[i].claimed_by_us)
}

impl Recorder {
    /// The host model.
    pub closed spec fn spec_host(&self) -> AudioHost {
        self.host
    }

    /// The slot.
    pub closed spec fn spec_slot(&self) -> Option<RecordingSession> {
        self.slot.spec_session()
    }

    /// The id the next session gets.
    pub closed spec fn spec_next_id(&self) -> u64 {
        self.next_id
    }

    /// The slot holds the session `id`.
    pub open spec fn holds(&self, id: u64) -> bool {
        self.spec_slot() matches Some(s) && s.session_id == id
    }

    /// The status of the live session.
    pub open spec fn spec_status(&self) -> SessionStatus
        recommends
            self.spec_slot() is Some,
    {
        self.spec_slot()->Some_0.status
    }

    /// The samples the live session holds.
    pub open spec fn captured(&self) -> Seq<i16>
        recommends
            self.spec_slot() is Some,
    {
        self.spec_slot()->Some_0.handle.buffer@
    }

    /// The live session moved to `status`, its samples now `captured`; the
    /// host, the next id and the session's id and device are kept.
    pub open spec fn moved_to(&self, old: Recorder, status: SessionStatus, captured: Seq<i16>) -> bool {
        &&& self.spec_slot() matches Some(s)
        &&& s.session_id == old.spec_slot()->Some_0.session_id
        &&& s.device_id == old.spec_slot()->Some_0.device_id
        &&& s.status == status
        &&& s.handle.buffer@ == captured
        &&& self.spec_host() == old.spec_host()
        &&& self.spec_next_id() == old.spec_next_id()
    }

    /// The recorder's invariant: a well-formed host, and either an empty slot
    /// with no device claimed, or one session that owns the only claim.
    pub open spec fn wf(&self) -> bool {
        &&& self.spec_host().wf()
        &&& self.spec_next_id() >= 1
        &&& match self.spec_slot() {
            None => no_claim(self.spec_host()),
            Some(s) => session_wf(s, self.spec_host(), self.spec_next_id()),
        }
    }

    /// What a device query answers on `rec`.
    pub open spec fn enumerate_post(rec: Recorder, r: Result<Vec<DeviceDescriptor>, RecorderError>) -> bool {
        &&& !rec.spec_host().reachable ==> r == Err::<Vec<DeviceDescriptor>, RecorderError>(
            RecorderError::DeviceQueryError,
        )
        &&& rec.spec_host().reachable ==> (r matches Ok(v) && v@ == descriptors(
            rec.spec_host().devices@,
        ))
    }

    /// `init(device_id)` on `pre` answers `r` and leaves `post`.
    pub open spec fn init_post(
        pre: Recorder,
        device_id: Seq<char>,
        r: Result<u64, RecorderError>,
        post: Recorder,
    ) -> bool {
        if pre.spec_slot() is Some {
            r == Err::<u64, RecorderError>(RecorderError::SessionAlreadyActive) && post == pre
        } else if pre.spec_next_id() == u64::MAX {
            r == Err::<u64, RecorderError>(RecorderError::HostSubsystemError) && post == pre
        } else {
            match claim_outcome(pre.spec_host().devices@, device_id) {
                Err(e) => r == Err::<u64, RecorderError>(e) && post == pre,
                Ok(_) => {
                    &&& r == Ok::<u64, RecorderError>(pre.spec_next_id())
                    &&& post.spec_slot() matches Some(s) && s.session_id == pre.spec_next_id()
                        && s.device_id@ == device_id && s.status == SessionStatus::Created
                    &&& post.spec_next_id() == pre.spec_next_id() + 1
                    &&& post.spec_host().reachable == pre.spec_host().reachable
                    &&& post.spec_host().devices@ == with_our_claim(
                        pre.spec_host().devices@,
                        device_id,
                        true,
                    )
                },
            }
        }
    }

    /// `start(id)` on `pre` answers `r` and leaves `post`.
    pub open spec fn start_post(pre: Recorder, id: u64, r: Result<(), RecorderError>, post: Recorder) -> bool {
        if !pre.holds(id) {
            r == Err::<(), RecorderError>(RecorderError::SessionMismatch) && post == pre
        } else if pre.spec_status() != SessionStatus::Created {
            r == Err::<(), RecorderError>(RecorderError::InvalidTransition) && post == pre
        } else if pre.spec_host().has_device(pre.spec_slot()->Some_0.device_id@) {
            r is Ok && post.moved_to(pre, SessionStatus::Recording, Seq::empty())
        } else {
            &&& r == Err::<(), RecorderError>(RecorderError::DeviceUnavailable)
            &&& post.spec_slot() is None
            &&& post.spec_next_id() == pre.spec_next_id()
            &&& post.spec_host().reachable == pre.spec_host().reachable
            &&& post.spec_host().devices@ == with_our_claim(
                pre.spec_host().devices@,
                pre.spec_slot()->Some_0.device_id@,
                false,
            )
        }
    }

    /// `stop(id)` on `pre` answers `r` and leaves `post`.
    pub open spec fn stop_post(pre: Recorder, id: u64, r: Result<Artifact, RecorderError>, post: Recorder) -> bool {
        if !pre.holds(id) {
            (r matches Err(e) && e == RecorderError::SessionMismatch) && post == pre
        } else if pre.spec_status() != SessionStatus::Recording {
            (r matches Err(e) && e == RecorderError::InvalidTransition) && post == pre
        } else {
            &&& r matches Ok(a) && a.session_id == id && a.samples@ == pre.captured()
            &&& post.moved_to(pre, SessionStatus::Stopped, pre.captured())
        }
    }

    /// `cancel(id)` on `pre` answers `r` and leaves `post`.
    pub open spec fn cancel_post(pre: Recorder, id: u64, r: Result<(), RecorderError>, post: Recorder) -> bool {
        if !pre.holds(id) {
            r == Err::<(), RecorderError>(RecorderError::SessionMismatch) && post == pre
        } else if pre.spec_status() == SessionStatus::Stopped || pre.spec_status()
            == SessionStatus::Cancelled {
            r == Err::<(), RecorderError>(RecorderError::InvalidTransition) && post == pre
        } else {
            r is Ok && post.moved_to(pre, SessionStatus::Cancelled, Seq::empty())
        }
    }

    /// The recorder has handed out the id `id`: ids run from 1 up to, and
    /// not including, the next id.
    pub open spec fn issued(&self, id: u64) -> bool {
        0 < id < self.spec_next_id()
    }

    /// `close(id)` on `pre` answers `r` and leaves `post`. An id never
    /// issued is a `SessionMismatch`; closing an issued id always succeeds,
    /// and does nothing when that session is already closed.
    pub open spec fn close_post(pre: Recorder, id: u64, r: Result<(), RecorderError>, post: Recorder) -> bool {
        &&& !pre.issued(id) ==> r == Err::<(), RecorderError>(RecorderError::SessionMismatch)
            && post == pre
        &&& pre.issued(id) ==> r is Ok
        &&& pre.issued(id) && !pre.holds(id) ==> post == pre
        &&& pre.holds(id) ==> {
            &&& post.spec_slot() is None
            &&& post.spec_next_id() == pre.spec_next_id()
            &&& post.spec_host().reachable == pre.spec_host().reachable
            &&& post.spec_host().devices@ == with_our_claim(
                pre.spec_host().devices@,
                pre.spec_slot()->Some_0.device_id@,
                false,
            )
        }
    }

    /// A recorder over `host`, with an empty slot.
    pub fn with_host(host: AudioHost) -> (r: Self)
        requires
            host.wf(),
            no_claim(host),
        ensures
            r.wf(),
            r.spec_host() == host,
            r.spec_slot() is None,
            r.spec_next_id() == 1,
    {
        Recorder { host, slot: SessionSlot::empty(), next_id: 1 }
    }

    /// A recorder over a reachable host with no device attached.
    pub fn new() -> (r: Self)
        ensures
            r.wf(),
            r.spec_host().reachable,
            r.spec_host().devices@.len() == 0,
            r.spec_slot() is None,
            r.spec_next_id() == 1,
    {
        Recorder::with_host(AudioHost::new())
    }

    /// The id of the live session, if any.
    pub fn get_current_recording_id(&self) -> (r: Option<u64>)
        ensures
            match self.spec_slot() {
                Some(s) => r == Some(s.session_id),
                None => r is None,
            },
    {
        self.slot.current_id()
    }

    /// The status of the live session, if any.
    pub fn current_status(&self) -> (r: Option<SessionStatus>)
        ensures
            match self.spec_slot() {
                Some(s) => r == Some(s.status),
                None => r is None,
            },
    {
        match self.slot.current() {
            Some(s) => Some(s.status),
            None => None,
        }
    }

    /// Every attached device, queried afresh; all or nothing.
    pub fn enumerate_recording_devices(&self) -> (r: Result<Vec<DeviceDescriptor>, RecorderError>)
        requires
            self.wf(),
        ensures
            Recorder::enumerate_post(*self, r),
    {
        self.host.enumerate()
    }

    /// Opens a session on the device `device_id` and returns its new id. The
    /// stream is allocated but not started. Refused while a session is live;
    /// a failed open leaves the recorder as it was.
    pub fn init_recording_session(&mut self, device_id: &String) -> (r: Result<u64, RecorderError>)
        requires
            old(self).wf(),
        ensures
            final(self).wf(),
            Recorder::init_post(*old(self), device_id@, r, *final(self)),
    {
        // Checked before the device is touched, so that a live session on
        // the same device reports itself rather than a busy device.
        if self.slot.current().is_some() {
            return Err(RecorderError::SessionAlreadyActive);
        }
        if self.next_id == u64::MAX {
            return Err(RecorderError::HostSubsystemError);
        }
        let ghost before = self.host;
        let handle = match CaptureHandle::open(&mut self.host, device_id) {
            Ok(h) => h,
            Err(e) => return Err(e),
        };
        let id = self.next_id;
        let session = RecordingSession {
            session_id: id,
            device_id: device_id.clone(),
            status: SessionStatus::Created,
            handle,
        };
        match self.slot.install(session) {
            Ok(()) => {},
            Err(e) => {
                self.host.release(device_id);
                return Err(e);
            },
        }
        self.next_id = id + 1;
        assert forall|i: int|
            0 <= i < self.host.devices@.len() && #[trigger] self.host.devices@[i].claimed_by_us
                implies self.host.devices@[i].descriptor.id@ == device_id@ by {
            assert(!before.devices@[i].claimed_by_us);
        }
        Ok(id)
    }

    /// The status of the session `id`, or `SessionMismatch` when the slot
    /// holds no session of that id.
    fn status_of(&self, session_id: u64) -> (r: Result<SessionStatus, RecorderError>)
        ensures
            self.holds(session_id) ==> r == Ok::<SessionStatus, RecorderError>(self.spec_status()),
            !self.holds(session_id) ==> r == Err::<SessionStatus, RecorderError>(
                RecorderError::SessionMismatch,
            ),
    {
        match self.slot.current() {
            Some(s) => {
                if s.session_id == session_id {
                    Ok(s.status)
                } else {
                    Err(RecorderError::SessionMismatch)
                }
            },
            None => Err(RecorderError::SessionMismatch),
        }
    }

    /// Starts capture for the created session `id`. Starting twice is an
    /// `InvalidTransition`. When the device has gone, the session is torn
    /// down and the slot left empty.
    pub fn start_recording(&mut self, session_id: u64) -> (r: Result<(), RecorderError>)
        requires
            old(self).wf(),
        ensures
            final(self).wf(),
            Recorder::start_post(*old(self), session_id, r, *final(self)),
    {
        match self.status_of(session_id) {
            Err(e) => return Err(e),
            Ok(SessionStatus::Created) => {},
            Ok(_) => return Err(RecorderError::InvalidTransition),
        }
        let mut s = self.slot.take(session_id).unwrap();
        match s.handle.begin(&self.host) {
            Ok(()) => {
                s.status = SessionStatus::Recording;
                assert(s.handle.buffer@ =~= Seq::<i16>::empty());
                self.slot.put_back(s);
                Ok(())
            },
            Err(e) => {
                let ghost before = self.host;
                s.handle.close(&mut self.host);
                assert forall|i: int| 0 <= i < self.host.devices@.len() implies !(
                #[trigger] self.host.devices@[i].claimed_by_us) by {
                    if before.devices@[i].claimed_by_us {
                        assert(before.devices@[i].descriptor.id@ == s.device_id@);
                    }
                }
                Err(e)
            },
        }
    }

    /// Frames from the capture stream of session `id`: kept when that session
    /// records, dropped otherwise. Returns whether they were kept.
    pub fn deliver_samples(&mut self, session_id: u64, samples: &[i16]) -> (r: bool)
        requires
            old(self).wf(),
        ensures
            final(self).wf(),
            r == (old(self).holds(session_id) && old(self).spec_status()
                == SessionStatus::Recording),
            r ==> final(self).moved_to(
                *old(self),
                SessionStatus::Recording,
                old(self).captured() + samples@,
            ),
            !r ==> *final(self) == *old(self),
    {
        match self.status_of(session_id) {
            Ok(SessionStatus::Recording) => {},
            _ => return false,
        }
        let mut s = self.slot.take(session_id).unwrap();
        let kept = s.handle.deliver(samples);
        self.slot.put_back(s);
        kept
    }

    /// Stops capture for the recording session `id` and hands out what it
    /// captured; the samples stay with the stopped session until it closes.
    pub fn stop_recording(&mut self, session_id: u64) -> (r: Result<Artifact, RecorderError>)
        requires
            old(self).wf(),
        ensures
            final(self).wf(),
            Recorder::stop_post(*old(self), session_id, r, *final(self)),
    {
        match self.status_of(session_id) {
            Err(e) => return Err(e),
            Ok(SessionStatus::Recording) => {},
            Ok(_) => return Err(RecorderError::InvalidTransition),
        }
        let mut s = self.slot.take(session_id).unwrap();
        let samples = s.handle.finish();
        s.status = SessionStatus::Stopped;
        self.slot.put_back(s);
        Ok(Artifact { session_id, samples })
    }

    /// Cancels the created or recording session `id`: the stream stops and
    /// every captured sample is discarded. No artifact comes of it.
    pub fn cancel_recording(&mut self, session_id: u64) -> (r: Result<(), RecorderError>)
        requires
            old(self).wf(),
        ensures
            final(self).wf(),
            Recorder::cancel_post(*old(self), session_id, r, *final(self)),
    {
        match self.status_of(session_id) {
            Err(e) => return Err(e),
            Ok(SessionStatus::Created) | Ok(SessionStatus::Recording) => {},
            Ok(_) => return Err(RecorderError::InvalidTransition),
        }
        let mut s = self.slot.take(session_id).unwrap();
        s.handle.abort();
        s.status = SessionStatus::Cancelled;
        assert(s.handle.buffer@ =~= Seq::<i16>::empty());
        self.slot.put_back(s);
        Ok(())
    }

    /// Releases the session `id` whatever its status: the stream stops, the
    /// device claim is dropped and the slot is emptied. Closing an issued id
    /// whose session is already closed, a repeated close included, succeeds
    /// and touches nothing; an id this recorder never issued is a
    /// `SessionMismatch`.
    pub fn close_recording_session(&mut self, session_id: u64) -> (r: Result<(), RecorderError>)
        requires
            old(self).wf(),
        ensures
            final(self).wf(),
            Recorder::close_post(*old(self), session_id, r, *final(self)),
    {
        if session_id == 0 || session_id >= self.next_id {
            return Err(RecorderError::SessionMismatch);
        }
        if self.status_of(session_id).is_err() {
            return Ok(());
        }
        let mut s = self.slot.take(session_id).unwrap();
        let ghost before = self.host;
        s.handle.abort();
        s.handle.close(&mut self.host);
        assert forall|i: int| 0 <= i < self.host.devices@.len() implies !(
        #[trigger] self.host.devices@[i].claimed_by_us) by {
            if before.devices@[i].claimed_by_us {
                assert(before.devices@[i].descriptor.id@ == s.device_id@);
            }
        }
        Ok(())
    }

    /// Process shutdown: cancels and closes the live session, if any, so no
    /// device claim outlives the recorder.
    pub fn shutdown(&mut self)
        requires
            old(self).wf(),
        ensures
            final(self).wf(),
            final(self).spec_slot() is None,
            no_claim(final(self).spec_host()),
            final(self).spec_next_id() == old(self).spec_next_id(),
            final(self).spec_host().reachable == old(self).spec_host().reachable,
            old(self).spec_slot() is None ==> final(self).spec_host() == old(self).spec_host(),
            old(self).spec_slot() matches Some(s) ==> final(self).spec_host().devices@
                == with_our_claim(old(self).spec_host().devices@, s.device_id@, false),
    {
        match self.get_current_recording_id() {
            Some(id) => {
                let _ = self.cancel_recording(id);
                let _ = self.close_recording_session(id);
            },
            None => {},
        }
    }

    /// Attaches a device to the host; see `AudioHost::attach_device`.
    pub fn attach_device(&mut self, d: DeviceDescriptor, format_supported: bool) -> (r: bool)
        requires
            old(self).wf(),
        ensures
            final(self).wf(),
            r == (descriptor_valid(d) && !old(self).spec_host().has_device(d.id@)),
            r ==> final(self).spec_host().devices@ == old(self).spec_host().devices@.push(
                HostDevice {
                    descriptor: d,
                    format_supported,
                    claimed_by_us: false,
                    claimed_elsewhere: false,
                },
            ),
            final(self).spec_host().reachable == old(self).spec_host().reachable,
            final(self).spec_slot() == old(self).spec_slot(),
            final(self).spec_next_id() == old(self).spec_next_id(),
            !r ==> *final(self) == *old(self),
    {
        let ghost before = self.host;
        let r = self.host.attach_device(d, format_supported);
        assert forall|i: int|
            0 <= i < self.host.devices@.len() && #[trigger] self.host.devices@[i].claimed_by_us
                implies before.devices@[i].claimed_by_us && i < before.devices@.len() by {
            if i >= before.devices@.len() {
                assert(!self.host.devices@[i].claimed_by_us);
            }
        }
        r
    }

    /// Detaches a device from the host, as when it is unplugged. A live
    /// session on it stays in the slot until it is closed.
    pub fn detach_device(&mut self, id: &String) -> (r: bool)
        requires
            old(self).wf(),
        ensures
            final(self).wf(),
            r == old(self).spec_host().has_device(id@),
            !final(self).spec_host().has_device(id@),
            forall|k: Seq<char>|
                k != id@ ==> (final(self).spec_host().has_device(k) == old(
                    self).spec_host().has_device(k)),
            final(self).spec_host().reachable == old(self).spec_host().reachable,
            final(self).spec_slot() == old(self).spec_slot(),
            final(self).spec_next_id() == old(self).spec_next_id(),
    {
        let ghost before = self.host;
        let r = self.host.detach_device(id);
        assert forall|i: int|
            0 <= i < self.host.devices@.len() && #[trigger] self.host.devices@[i].claimed_by_us
                implies exists|j: int|
                0 <= j < before.devices@.len() && before.devices@[j] == self.host.devices@[i] by {
            assert(before.devices@.contains(self.host.devices@[i]));
        }
        r
    }

    /// Marks a device as claimed, or no longer claimed, by another process.
    pub fn set_device_claimed_elsewhere(&mut self, id: &String, busy: bool) -> (r: bool)
        requires
            old(self).wf(),
        ensures
            final(self).wf(),
            r == old(self).spec_host().has_device(id@),
            final(self).spec_host().devices@ == with_other_claim(
                old(self).spec_host().devices@,
                id@,
                busy,
            ),
            final(self).spec_host().reachable == old(self).spec_host().reachable,
            final(self).spec_slot() == old(self).spec_slot(),
            final(self).spec_next_id() == old(self).spec_next_id(),
    {
        let ghost before = self.host;
        let r = self.host.set_claimed_elsewhere(id, busy);
        assert forall|i: int|
            0 <= i < self.host.devices@.len() implies self.host.devices@[i].claimed_by_us
                == before.devices@[i].claimed_by_us && self.host.devices@[i].descriptor
                == before.devices@[i].descriptor by {}
        r
    }

    /// Makes device queries succeed or fail, as when the audio service goes
    /// away or comes back.
    pub fn set_host_reachable(&mut self, reachable: bool)
        requires
            old(self).wf(),
        ensures
            final(self).wf(),
            final(self).spec_host().reachable == reachable,
            final(self).spec_host().devices@ == old(self).spec_host().devices@,
            final(self).spec_slot() == old(self).spec_slot(),
            final(self).spec_next_id() == old(self).spec_next_id(),
    {
        self.host.reachable = reachable;
    }
}

} // verus!
