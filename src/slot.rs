use vstd::prelude::*;

use crate::engine::CaptureHandle;
use crate::error::RecorderError;

verus! {

/// Where a live session stands. A closed session leaves the slot empty.
#[derive(Debug, Clone, Copy, PartialEq, Eq, Structural)]
pub enum SessionStatus {
    Created,
    Recording,
    Stopped,
    Cancelled,
}

/// One session: its id, its device, its status and its capture handle.
pub struct RecordingSession {
    pub session_id: u64,
    pub device_id: String,
    pub status: SessionStatus,
    pub handle: CaptureHandle,
}

/// The shared session slot: at most one session, installed only into an
/// empty slot and taken out only by its id.
pub struct SessionSlot {
    session: Option<RecordingSession>,
}

impl SessionSlot {
    /// What the slot holds.
    pub closed spec fn spec_session(&self) -> Option<RecordingSession> {
        self.session
    }

    /// A slot with no session.
    pub fn empty() -> (r: Self)
        ensures
            r.spec_session() is None,
    {
        SessionSlot { session: None }
    }

    /// The session in the slot, if any.
    pub fn current(&self) -> (r: Option<&RecordingSession>)
        ensures
            match self.spec_session() {
                Some(s) => r matches Some(x) && *x == s,
                None => r is None,
            },
    {
        self.session.as_ref()
    }

    /// The id of the session in the slot, if any.
    pub fn current_id(&self) -> (r: Option<u64>)
        ensures
            match self.spec_session() {
                Some(s) => r == Some(s.session_id),
                None => r is None,
            },
    {
        match &self.session {
            Some(s) => Some(s.session_id),
            None => None,
        }
    }

    /// Puts `s` into the slot; `SessionAlreadyActive`, with the slot
    /// unchanged, when it already holds a session.
    pub fn install(&mut self, s: RecordingSession) -> (r: Result<(), RecorderError>)
        ensures
            old(self).spec_session() is None ==> r is Ok && final(self).spec_session() == Some(s),
            old(self).spec_session() is Some ==> r == Err::<(), RecorderError>(
                RecorderError::SessionAlreadyActive,
            ) && *final(self) == *old(self),
    {
        if self.session.is_some() {
            return Err(RecorderError::SessionAlreadyActive);
        }
        self.put_back(s);
        Ok(())
    }

    /// Puts back a session taken out for a transition.
    pub fn put_back(&mut self, s: RecordingSession)
        requires
            old(self).spec_session() is None,
        ensures
            final(self).spec_session() == Some(s),
    {
        self.session = Some(s);
    }

    /// Takes the session `id` out of the slot, leaving it empty; `None`, with
    /// the slot unchanged, when it holds no session of that id.
    pub fn take(&mut self, id: u64) -> (r: Option<RecordingSession>)
        ensures
            old(self).spec_session() matches Some(s) && s.session_id == id ==> r == old(
                self,
            ).spec_session() && final(self).spec_session() is None,
            !(old(self).spec_session() matches Some(s) && s.session_id == id) ==> r is None
                && *final(self) == *old(self),
    {
        let holds = match &self.session {
            Some(s) => s.session_id == id,
            None => false,
        };
        if holds {
            self.session.take()
        } else {
            None
        }
    }
}

} // verus!
