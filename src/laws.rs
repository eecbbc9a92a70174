//! Properties of whole command sequences, proved from the commands' contracts.
use vstd::prelude::*;

use crate::device::DeviceDescriptor;
use crate::error::RecorderError;
use crate::host::{claim_outcome, with_our_claim, HostDevice};
use crate::recorder::{no_claim, Artifact, Recorder};
use crate::slot::SessionStatus;

verus! {

/// How many sessions of `rec` are recording.
pub open spec fn recording_sessions(rec: Recorder) -> nat {
    if rec.spec_slot() matches Some(s) && s.status == SessionStatus::Recording {
        1
    } else {
        0
    }
}

/// Exclusivity: in every state the commands can reach, at most one session
/// records, at most one device is claimed by the recorder, and a claim exists
/// only for the device of the live session.
pub proof fn lemma_exclusive_recording(rec: Recorder)
    requires
        rec.wf(),
    ensures
        recording_sessions(rec) <= 1,
        forall|i: int, j: int|
            0 <= i < rec.spec_host().devices@.len() && 0 <= j < rec.spec_host().devices@.len()
                && #[trigger] rec.spec_host().devices@[i].claimed_by_us
                && #[trigger] rec.spec_host().devices@[j].claimed_by_us ==> i == j,
        rec.spec_slot() is None ==> no_claim(rec.spec_host()),
        rec.spec_slot() matches Some(s) ==> (s.handle.running <==> s.status
            == SessionStatus::Recording),
{
    let devs = rec.spec_host().devices@;
    let ds = crate::host::descriptors(devs);
    assert forall|i: int, j: int|
        0 <= i < devs.len() && 0 <= j < devs.len() && #[trigger] devs[i].claimed_by_us
            && #[trigger] devs[j].claimed_by_us implies i == j by {
        assert(ds[i].id@ == devs[i].descriptor.id@);
        assert(ds[j].id@ == devs[j].descriptor.id@);
    }
}

/// Claiming a device that nobody in the recorder holds, then releasing it,
/// gives back the devices as they were.
pub proof fn lemma_claim_release(devs: Seq<HostDevice>, id: Seq<char>)
    requires
        forall|i: int| 0 <= i < devs.len() ==> !(#[trigger] devs[i].claimed_by_us),
    ensures
        with_our_claim(with_our_claim(devs, id, true), id, false) == devs,
{
    let back = with_our_claim(with_our_claim(devs, id, true), id, false);
    assert forall|i: int| 0 <= i < devs.len() implies back[i] == devs[i] by {
        assert(!devs[i].claimed_by_us);
    }
    assert(back =~= devs);
}

/// Opening a session and closing it at once succeeds and empties the slot;
/// the device can then be opened again. (Ids must not run out in between.)
pub proof fn lemma_init_close_init(
    r0: Recorder,
    device: Seq<char>,
    res1: Result<u64, RecorderError>,
    r1: Recorder,
    res2: Result<(), RecorderError>,
    r2: Recorder,
    res3: Result<u64, RecorderError>,
    r3: Recorder,
)
    requires
        r0.wf(),
        r0.spec_next_id() < u64::MAX - 1,
        Recorder::init_post(r0, device, res1, r1),
        res1 is Ok,
        Recorder::close_post(r1, res1->Ok_0, res2, r2),
        Recorder::init_post(r2, device, res3, r3),
    ensures
        res2 is Ok,
        r2.spec_slot() is None,
        res3 == Ok::<u64, RecorderError>((res1->Ok_0 + 1) as u64),
{
    lemma_claim_release(r0.spec_host().devices@, device);
}

/// On a fresh recorder (empty slot, next id 1), `init` on a device that can
/// be opened succeeds with id 1 and leaves a created session in the slot.
pub proof fn lemma_first_init(
    r0: Recorder,
    device: Seq<char>,
    res: Result<u64, RecorderError>,
    r1: Recorder,
)
    requires
        r0.wf(),
        r0.spec_slot() is None,
        r0.spec_next_id() == 1,
        claim_outcome(r0.spec_host().devices@, device) is Ok,
        Recorder::init_post(r0, device, res, r1),
    ensures
        res == Ok::<u64, RecorderError>(1),
        r1.spec_slot() matches Some(s) && s.session_id == 1 && s.status == SessionStatus::Created,
        r1.spec_next_id() == 2,
{
}

/// A second `init` while a session is open is refused with
/// `SessionAlreadyActive` and changes nothing.
pub proof fn lemma_second_init_refused(
    r0: Recorder,
    d1: Seq<char>,
    res1: Result<u64, RecorderError>,
    r1: Recorder,
    d2: Seq<char>,
    res2: Result<u64, RecorderError>,
    r2: Recorder,
)
    requires
        r0.wf(),
        Recorder::init_post(r0, d1, res1, r1),
        res1 is Ok,
        Recorder::init_post(r1, d2, res2, r2),
    ensures
        res2 == Err::<u64, RecorderError>(RecorderError::SessionAlreadyActive),
        r2 == r1,
{
}

/// Once a session is closed, `start` with its id fails with `SessionMismatch`.
pub proof fn lemma_start_after_close(
    r0: Recorder,
    id: u64,
    res1: Result<(), RecorderError>,
    r1: Recorder,
    res2: Result<(), RecorderError>,
    r2: Recorder,
)
    requires
        r0.wf(),
        r0.holds(id),
        Recorder::close_post(r0, id, res1, r1),
        Recorder::start_post(r1, id, res2, r2),
    ensures
        res2 == Err::<(), RecorderError>(RecorderError::SessionMismatch),
{
}

/// A closed session's id stays stale after a new `init`, successful or not:
/// `start` with it fails with `SessionMismatch`.
pub proof fn lemma_stale_id_after_new_session(
    r0: Recorder,
    id: u64,
    res1: Result<(), RecorderError>,
    r1: Recorder,
    device: Seq<char>,
    res2: Result<u64, RecorderError>,
    r2: Recorder,
    res3: Result<(), RecorderError>,
    r3: Recorder,
)
    requires
        r0.wf(),
        r0.holds(id),
        Recorder::close_post(r0, id, res1, r1),
        Recorder::init_post(r1, device, res2, r2),
        Recorder::start_post(r2, id, res3, r3),
    ensures
        res3 == Err::<(), RecorderError>(RecorderError::SessionMismatch),
{
}

/// `cancel` right after a successful `start` succeeds with nothing captured
/// and no artifact (a `stop` then is an `InvalidTransition`); the session id
/// stays current until `close`, after which there is none.
pub proof fn lemma_cancel_after_start(
    r0: Recorder,
    id: u64,
    res1: Result<(), RecorderError>,
    r1: Recorder,
    res2: Result<(), RecorderError>,
    r2: Recorder,
    res_stop: Result<Artifact, RecorderError>,
    r_stop: Recorder,
    res3: Result<(), RecorderError>,
    r3: Recorder,
)
    requires
        r0.wf(),
        Recorder::start_post(r0, id, res1, r1),
        res1 is Ok,
        Recorder::cancel_post(r1, id, res2, r2),
        Recorder::stop_post(r2, id, res_stop, r_stop),
        Recorder::close_post(r2, id, res3, r3),
    ensures
        res2 is Ok,
        r2.spec_slot() matches Some(s) && s.session_id == id && s.status
            == SessionStatus::Cancelled && s.handle.buffer@.len() == 0,
        res_stop matches Err(e) && e == RecorderError::InvalidTransition,
        r3.spec_slot() is None,
{
}

/// `stop` twice on one recording session: the first hands out everything
/// captured, the second fails with `InvalidTransition`.
pub proof fn lemma_stop_twice(
    r0: Recorder,
    id: u64,
    res1: Result<Artifact, RecorderError>,
    r1: Recorder,
    res2: Result<Artifact, RecorderError>,
    r2: Recorder,
)
    requires
        r0.wf(),
        r0.holds(id),
        r0.spec_status() == SessionStatus::Recording,
        Recorder::stop_post(r0, id, res1, r1),
        Recorder::stop_post(r1, id, res2, r2),
    ensures
        res1 matches Ok(a) && a.session_id == id && a.samples@ == r0.captured(),
        res2 matches Err(e) && e == RecorderError::InvalidTransition,
        r2 == r1,
{
}

/// With no device attached, a device query on a reachable host answers an
/// empty listing, not an error.
pub proof fn lemma_no_devices_empty_listing(
    rec: Recorder,
    res: Result<Vec<DeviceDescriptor>, RecorderError>,
)
    requires
        rec.wf(),
        rec.spec_host().reachable,
        rec.spec_host().devices@.len() == 0,
        Recorder::enumerate_post(rec, res),
    ensures
        res matches Ok(v) && v@.len() == 0,
{
}

/// A busy device makes `init` fail with the slot left empty and the recorder
/// unchanged, so `init` on a free device succeeds right after.
pub proof fn lemma_busy_init_leaves_slot_empty(
    r0: Recorder,
    d1: Seq<char>,
    res1: Result<u64, RecorderError>,
    r1: Recorder,
    d2: Seq<char>,
    res2: Result<u64, RecorderError>,
    r2: Recorder,
)
    requires
        r0.wf(),
        Recorder::init_post(r0, d1, res1, r1),
        res1 == Err::<u64, RecorderError>(RecorderError::DeviceBusy),
        claim_outcome(r0.spec_host().devices@, d2) is Ok,
        Recorder::init_post(r1, d2, res2, r2),
    ensures
        r1.spec_slot() is None,
        r1 == r0,
        res2 == Ok::<u64, RecorderError>(r0.spec_next_id()),
{
}

} // verus!
