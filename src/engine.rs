use vstd::prelude::*;

use crate::error::RecorderError;
use crate::host::{claim_outcome, with_our_claim, AudioHost};

verus! {

/// The capture engine's hold on one input stream: the claimed device, whether
/// the stream runs, and the samples delivered so far.
pub struct CaptureHandle {
    pub device_id: String,
    /// Native resources are held (device claim, stream).
    pub open: bool,
    /// The stream delivers frames.
    pub running: bool,
    /// Samples delivered while running, in order.
    pub buffer: Vec<i16>,
}

/// A copy of `s`.
pub fn copy_samples(s: &[i16]) -> (r: Vec<i16>)
    ensures
        r@ == s@,
{
    let mut r: Vec<i16> = Vec::new();
    let mut i: usize = 0;
    while i < s.len()
        invariant
            i <= s@.len(),
            r@ == s@.subrange(0, i as int),
        decreases s@.len() - i,
    {
        r.push(s[i]);
        assert(s@.subrange(0, i + 1) =~= s@.subrange(0, i as int).push(s@[i as int]));
        i = i + 1;
    }
    assert(s@.subrange(0, i as int) =~= s@);
    r
}

impl CaptureHandle {
    /// Resolves the device, checks its format and claims it. The stream is
    /// allocated but does not run yet. On failure the host is unchanged.
    pub fn open(host: &mut AudioHost, device_id: &String) -> (r: Result<CaptureHandle, RecorderError>)
        requires
            old(host).wf(),
        ensures
            final(host).wf(),
            final(host).reachable == old(host).reachable,
            match r {
                Ok(h) => {
                    &&& claim_outcome(old(host).devices@, device_id@) is Ok
                    &&& h.device_id@ == device_id@
                    &&& h.open
                    &&& !h.running
                    &&& h.buffer@.len() == 0
                    &&& final(host).devices@ == with_our_claim(old(host).devices@, device_id@, true)
                },
                Err(e) => {
                    &&& claim_outcome(old(host).devices@, device_id@) == Err::<(), RecorderError>(e)
                    &&& *final(host) == *old(host)
                },
            },
    {
        match host.claim(device_id) {
            Ok(()) => Ok(
                CaptureHandle {
                    device_id: device_id.clone(),
                    open: true,
                    running: false,
                    buffer: Vec::new(),
                },
            ),
            Err(e) => Err(e),
        }
    }

    /// Starts the stream. Starting a running stream keeps it running. Fails
    /// with `DeviceUnavailable`, changing nothing, once the device is gone.
    pub fn begin(&mut self, host: &AudioHost) -> (r: Result<(), RecorderError>)
        requires
            old(self).open,
        ensures
            host.has_device(old(self).device_id@) ==> r is Ok && *final(self) == (CaptureHandle {
                running: true,
                ..*old(self)
            }),
            !host.has_device(old(self).device_id@) ==> r == Err::<(), RecorderError>(
                RecorderError::DeviceUnavailable,
            ) && *final(self) == *old(self),
    {
        match host.position(&self.device_id) {
            Some(i) => {
                assert(crate::host::descriptors(host.devices@)[i as int].id@ == self.device_id@);
                self.running = true;
                Ok(())
            },
            None => Err(RecorderError::DeviceUnavailable),
        }
    }

    /// Hands frames from the stream to the buffer: appended when the stream
    /// runs, dropped otherwise. Returns whether they were kept.
    pub fn deliver(&mut self, samples: &[i16]) -> (r: bool)
        ensures
            r == old(self).running,
            final(self).device_id == old(self).device_id,
            final(self).open == old(self).open,
            final(self).running == old(self).running,
            r ==> final(self).buffer@ == old(self).buffer@ + samples@,
            !r ==> final(self).buffer@ == old(self).buffer@,
    {
        if !self.running {
            return false;
        }
        let ghost start = self.buffer@;
        let mut i: usize = 0;
        while i < samples.len()
            invariant
                i <= samples@.len(),
                self.buffer@ == start + samples@.subrange(0, i as int),
                self.device_id == old(self).device_id,
                self.open == old(self).open,
                self.running == old(self).running,
            decreases samples@.len() - i,
        {
            self.buffer.push(samples[i]);
            assert(samples@.subrange(0, i + 1) =~= samples@.subrange(0, i as int).push(samples@[i as int]));
            assert(start + samples@.subrange(0, i + 1) =~= (start + samples@.subrange(0, i as int)).push(samples@[i as int]));
            i = i + 1;
        }
        assert(samples@.subrange(0, i as int) =~= samples@);
        true
    }

    /// Stops the stream and hands out everything it delivered; the buffer
    /// stays as it is. With no frame delivered the result is empty.
    pub fn finish(&mut self) -> (r: Vec<i16>)
        ensures
            r@ == old(self).buffer@,
            *final(self) == (CaptureHandle { running: false, ..*old(self) }),
    {
        self.running = false;
        copy_samples(self.buffer.as_slice())
    }

    /// Stops the stream and discards every buffered sample.
    pub fn abort(&mut self)
        ensures
            final(self).device_id == old(self).device_id,
            final(self).open == old(self).open,
            !final(self).running,
            final(self).buffer@.len() == 0,
    {
        self.running = false;
        self.buffer = Vec::new();
    }

    /// Releases the stream, the buffer and the device claim. A second call
    /// finds nothing left to release and changes nothing.
    pub fn close(&mut self, host: &mut AudioHost)
        requires
            old(host).wf(),
        ensures
            final(host).wf(),
            final(host).reachable == old(host).reachable,
            old(self).open ==> final(host).devices@ == with_our_claim(
                old(host).devices@,
                old(self).device_id@,
                false,
            ),
            !old(self).open ==> *final(host) == *old(host),
            final(self).device_id == old(self).device_id,
            !final(self).open,
            !final(self).running,
            final(self).buffer@.len() == 0,
    {
        if self.open {
            host.release(&self.device_id);
        }
        self.open = false;
        self.running = false;
        self.buffer = Vec::new();
    }
}

} // verus!
