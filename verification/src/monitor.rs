//! The controller state of the capture pipeline.
//!
//! One value of [`AudioMonitor`] holds everything the host can observe:
//! the chunk size, the selected device id, the running flag, whether a
//! capture worker is active, and the most recently published chunk of
//! sample bit patterns. The threads, locks and channels that carry
//! chunks between the capture loop and this state live outside the
//! library; every decision they take — which device to fall back to,
//! whether a relay loop goes on, what a spectrum request is answered
//! from — is a method here with a contract.

use vstd::prelude::*;

use crate::fft::{plan_spectrum, spec_next_pow2, SpectrumLayout, MAX_ANALYSIS_SAMPLES};
use crate::utils::{contains_device_id, spec_contains_id};

verus! {

/// What happened on the relay side of the bounded chunk channel.
pub enum RelayEvent {
    /// A chunk of sample bit patterns arrived.
    Chunk(Vec<u32>),
    /// The bounded receive timed out; nothing arrived.
    Timeout,
    /// The sending side is gone.
    Disconnected,
}

/// What a spectrum request is answered from.
pub enum SpectrumSource {
    /// No data to analyze: the answer is `bands` zeros.
    Silence { bands: u32 },
    /// Analyze these samples with this banded layout.
    Analyze { samples: Vec<u32>, layout: SpectrumLayout },
}

impl SpectrumSource {
    /// How many values the host receives for this answer: one per
    /// requested band, whichever way the request is answered.
    pub open spec fn spec_band_count(&self) -> int {
        match self {
            SpectrumSource::Silence { bands } => *bands as int,
            SpectrumSource::Analyze { samples: _, layout } => layout.num_bands as int,
        }
    }
}

/// The device id that a capture session will use: the requested id if
/// it is among the available output devices, otherwise the default
/// device's id (which may itself be unknown).
pub open spec fn spec_resolve_device(
    requested: Option<String>,
    available: Seq<String>,
    default_id: Option<String>,
) -> Option<String> {
    match requested {
        Some(id) => if spec_contains_id(available, id@) {
            Some(id)
        } else {
            default_id
        },
        None => default_id,
    }
}

/// A requested device id that is not among the available ids resolves
/// to the default device's id, never to the stale id.
pub proof fn lemma_stale_id_falls_back(
    requested: String,
    available: Seq<String>,
    default_id: Option<String>,
)
    requires
        !spec_contains_id(available, requested@),
    ensures
        spec_resolve_device(Some(requested), available, default_id) == default_id,
{
}

/// Whether a spectrum request must run the analysis: there are samples
/// and the band count fits the meaningful half of the padded transform.
/// Otherwise the request is answered with zeros — in particular, before
/// any chunk has been published.
pub open spec fn spec_needs_analysis(sample_count: int, num_bands: int) -> bool {
    sample_count > 0 && 1 <= num_bands <= spec_next_pow2(sample_count) / 2
}

/// With no published chunk, no band count needs the analysis: every
/// request is answered with the requested number of zeros.
pub proof fn lemma_no_chunk_is_silent(num_bands: int)
    ensures
        !spec_needs_analysis(0, num_bands),
{
}

/// Whether the byte queue holds at least one whole chunk of frames:
/// the capture loop extracts and forwards a chunk exactly when this
/// holds, and drains more bytes from the device otherwise.
pub fn chunk_ready(queue_len: usize, blockalign: usize, chunk_size: usize) -> (r: bool)
    requires
        blockalign * chunk_size <= usize::MAX,
    ensures
        r == (queue_len >= blockalign * chunk_size),
{
    queue_len >= blockalign * chunk_size
}

/// What last happened on the capture thread: the loop has just begun,
/// a chunk went out (or its receiver is gone), the device buffer was
/// drained, or the bounded wait on the data signal ended one of its
/// three ways.
#[derive(Clone, Copy, Debug, Eq, PartialEq, Structural)]
pub enum CaptureEvent {
    /// The stream has just started; nothing has happened yet.
    Started,
    /// A chunk was sent on the bounded channel.
    SentOk,
    /// The channel's receiving side is gone.
    SendFailed,
    /// Newly available device bytes were moved into the queue.
    Drained,
    /// The data signal fired.
    WaitSignaled,
    /// The bounded wait timed out.
    WaitTimeout,
    /// The wait failed; treated as a spurious wake.
    WaitError,
}

/// What the capture thread does next: extract and send one chunk,
/// drain the device into the queue, wait for the data signal with a
/// bounded timeout, or stop the stream and exit.
#[derive(Clone, Copy, Debug, Eq, PartialEq, Structural)]
pub enum CaptureAction {
    ExtractAndSend,
    Drain,
    Wait,
    StopStream,
}

/// One step of the capture loop: the keep-running flag is consulted
/// first, so clearing it is observed within one bounded wait; a gone
/// receiver also ends the loop. While the loop lives, each iteration
/// extracts a chunk whenever one is ready, then drains, then waits;
/// a timeout, a signal and a wait error all begin the next iteration.
pub open spec fn spec_capture_step(
    running: bool,
    queue_len: int,
    blockalign: int,
    chunk_size: int,
    event: CaptureEvent,
) -> CaptureAction {
    if !running {
        CaptureAction::StopStream
    } else {
        match event {
            CaptureEvent::SendFailed => CaptureAction::StopStream,
            CaptureEvent::SentOk => CaptureAction::Drain,
            CaptureEvent::Drained => CaptureAction::Wait,
            _ => if queue_len >= blockalign * chunk_size {
                CaptureAction::ExtractAndSend
            } else {
                CaptureAction::Drain
            },
        }
    }
}

/// Decide the capture thread's next action from the shared
/// keep-running flag, the queue fill and what last happened.
///
/// When the action is [`CaptureAction::ExtractAndSend`], the queue
/// holds at least one whole chunk, so the extraction's precondition
/// is met.
pub fn capture_step(
    running: bool,
    queue_len: usize,
    blockalign: usize,
    chunk_size: usize,
    event: CaptureEvent,
) -> (r: CaptureAction)
    requires
        blockalign * chunk_size <= usize::MAX,
    ensures
        r == spec_capture_step(
            running,
            queue_len as int,
            blockalign as int,
            chunk_size as int,
            event,
        ),
        r is ExtractAndSend ==> queue_len >= blockalign * chunk_size,
{
    if !running {
        return CaptureAction::StopStream;
    }
    match event {
        CaptureEvent::SendFailed => CaptureAction::StopStream,
        CaptureEvent::SentOk => CaptureAction::Drain,
        CaptureEvent::Drained => CaptureAction::Wait,
        _ => {
            if chunk_ready(queue_len, blockalign, chunk_size) {
                CaptureAction::ExtractAndSend
            } else {
                CaptureAction::Drain
            }
        },
    }
}

/// Once the keep-running flag is down, the capture loop's next step is
/// to stop the stream, whatever the queue holds and whatever happened
/// last: a stop is observed within one bounded wait.
pub proof fn lemma_stop_is_observed(
    queue_len: int,
    blockalign: int,
    chunk_size: int,
    event: CaptureEvent,
)
    ensures
        spec_capture_step(false, queue_len, blockalign, chunk_size, event)
            is StopStream,
{
}

/// The capture controller's state.
///
/// The running flag, the worker flag and the latest chunk model the
/// values that the host, the capture thread and the relay loop share;
/// the methods are the transitions those parties may take.
pub struct AudioMonitor {
    /// Samples per chunk for the next capture session.
    pub chunk_size: usize,
    /// The selected output device, `None` for the default device.
    pub device_id: Option<String>,
    /// Whether monitoring is on: the capture and relay loops keep
    /// going exactly while this holds.
    pub running: bool,
    /// Whether a capture worker exists that has not been joined.
    pub worker_active: bool,
    /// The most recently published chunk of sample bit patterns;
    /// empty until the first chunk arrives.
    pub latest_chunk: Vec<u32>,
}

impl AudioMonitor {
    /// Well-formedness: the chunk size fits the host-facing 32-bit
    /// getter, the latest chunk is small enough to analyze, and a
    /// worker exists only while monitoring is on.
    pub open spec fn wf(&self) -> bool {
        &&& self.chunk_size <= u32::MAX
        &&& self.latest_chunk@.len() <= MAX_ANALYSIS_SAMPLES
        &&& (self.worker_active ==> self.running)
    }

    /// A stopped controller with the default chunk size, no selected
    /// device and no published chunk.
    pub fn new() -> (r: AudioMonitor)
        ensures
            r.wf(),
            r.chunk_size == 2048,
            r.device_id is None,
            !r.running,
            !r.worker_active,
            r.latest_chunk@.len() == 0,
    {
        AudioMonitor {
            chunk_size: 2048,
            device_id: None,
            running: false,
            worker_active: false,
            latest_chunk: Vec::new(),
        }
    }

    /// Select a device for the next capture session. Selecting the id
    /// that is already selected changes nothing; any other selection
    /// first stops a running session, so the new id takes effect on
    /// the next start.
    pub fn set_device(&mut self, device_id: Option<String>)
        requires
            old(self).wf(),
        ensures
            final(self).wf(),
            final(self).chunk_size == old(self).chunk_size,
            final(self).latest_chunk == old(self).latest_chunk,
            ({
                let same = match (old(self).device_id, device_id) {
                    (Some(a), Some(b)) => a@ == b@,
                    (None, None) => true,
                    _ => false,
                };
                if same {
                    *final(self) == *old(self)
                } else {
                    &&& final(self).device_id == device_id
                    &&& !final(self).running
                    &&& !final(self).worker_active
                }
            }),
    {
        let same = match (&self.device_id, &device_id) {
            (Some(a), Some(b)) => a.eq(b),
            (None, None) => true,
            _ => false,
        };
        if same {
            return ;
        }
        if self.running {
            self.stop();
        }
        self.device_id = device_id;
    }

    /// Start monitoring: stop any existing session, adopt the chunk
    /// size if one is given, and mark the session running with its
    /// capture worker launched. Resolving the device and format
    /// happens inside the worker, not here.
    pub fn start(&mut self, chunk_size: Option<u32>)
        requires
            old(self).wf(),
        ensures
            final(self).wf(),
            final(self).running,
            final(self).worker_active,
            final(self).chunk_size == match chunk_size {
                Some(size) => size as usize,
                None => old(self).chunk_size,
            },
            final(self).device_id == old(self).device_id,
            final(self).latest_chunk == old(self).latest_chunk,
    {
        self.stop();
        if let Some(size) = chunk_size {
            self.chunk_size = size as usize;
        }
        self.running = true;
        self.worker_active = true;
    }

    /// Stop monitoring: clear the running flag and account for both
    /// loops having been joined. Idempotent; afterwards no worker is
    /// active.
    pub fn stop(&mut self)
        requires
            old(self).wf(),
        ensures
            final(self).wf(),
            !final(self).running,
            !final(self).worker_active,
            final(self).chunk_size == old(self).chunk_size,
            final(self).device_id == old(self).device_id,
            final(self).latest_chunk == old(self).latest_chunk,
    {
        if !self.running {
            return ;
        }
        self.running = false;
        self.worker_active = false;
    }

    /// Resolve the selected device against the available output-device
    /// ids: keep it when it is available, otherwise record the default
    /// device's id (or none, when even that is unknown). A stale id
    /// never survives into a session.
    pub fn update_device_id(&mut self, available_ids: &Vec<String>, default_id: Option<String>)
        requires
            old(self).wf(),
        ensures
            final(self).wf(),
            final(self).device_id == spec_resolve_device(
                old(self).device_id,
                available_ids@,
                default_id,
            ),
            final(self).chunk_size == old(self).chunk_size,
            final(self).running == old(self).running,
            final(self).worker_active == old(self).worker_active,
            final(self).latest_chunk == old(self).latest_chunk,
    {
        let keep = match &self.device_id {
            Some(id) => contains_device_id(available_ids, id),
            None => false,
        };
        if keep {
            return ;
        }
        self.device_id = default_id;
    }

    /// Publish a chunk as the latest one, replacing the previous chunk
    /// entirely.
    pub fn publish_chunk(&mut self, samples: Vec<u32>)
        requires
            old(self).wf(),
            samples@.len() <= MAX_ANALYSIS_SAMPLES,
        ensures
            final(self).wf(),
            final(self).latest_chunk == samples,
            final(self).chunk_size == old(self).chunk_size,
            final(self).device_id == old(self).device_id,
            final(self).running == old(self).running,
            final(self).worker_active == old(self).worker_active,
    {
        self.latest_chunk = samples;
    }

    /// Take one step of the relay loop: publish an arriving chunk,
    /// ignore a timeout, and report whether the loop goes on — it does
    /// exactly while monitoring is on and the channel is connected.
    pub fn handle_relay_event(&mut self, event: RelayEvent) -> (go_on: bool)
        requires
            old(self).wf(),
            event matches RelayEvent::Chunk(samples) ==> samples@.len()
                <= MAX_ANALYSIS_SAMPLES,
        ensures
            final(self).wf(),
            final(self).chunk_size == old(self).chunk_size,
            final(self).device_id == old(self).device_id,
            final(self).running == old(self).running,
            final(self).worker_active == old(self).worker_active,
            match event {
                RelayEvent::Chunk(samples) => final(self).latest_chunk == samples && go_on
                    == old(self).running,
                RelayEvent::Timeout => *final(self) == *old(self) && go_on == old(
                    self,
                ).running,
                RelayEvent::Disconnected => *final(self) == *old(self) && !go_on,
            },
    {
        match event {
            RelayEvent::Chunk(samples) => {
                self.publish_chunk(samples);
                self.running
            },
            RelayEvent::Timeout => self.running,
            RelayEvent::Disconnected => false,
        }
    }

    /// Answer a spectrum request: with no published chunk — or a band
    /// count that the padded transform cannot fill — the requested
    /// number of zeros; otherwise the latest chunk together with the
    /// banded layout for it.
    pub fn get_spectrum(&self, num_bands: u32) -> (r: SpectrumSource)
        requires
            self.wf(),
        ensures
            r.spec_band_count() == num_bands,
            !spec_needs_analysis(self.latest_chunk@.len() as int, num_bands as int) ==> (
            r matches SpectrumSource::Silence { bands } && bands == num_bands),
            spec_needs_analysis(self.latest_chunk@.len() as int, num_bands as int) ==> (
            r matches SpectrumSource::Analyze { samples, layout } && {
                &&& samples@ == self.latest_chunk@
                &&& layout.wf()
                &&& layout.fft_size == spec_next_pow2(self.latest_chunk@.len() as int)
                &&& layout.num_bands == num_bands
            }),
    {
        if self.latest_chunk.len() == 0 {
            return SpectrumSource::Silence { bands: num_bands };
        }
        match plan_spectrum(self.latest_chunk.len(), num_bands as usize) {
            Some(layout) => {
                let mut samples: Vec<u32> = Vec::new();
                let mut i: usize = 0;
                while i < self.latest_chunk.len()
                    invariant
                        i <= self.latest_chunk@.len(),
                        samples@ == self.latest_chunk@.take(i as int),
                    decreases self.latest_chunk@.len() - i,
                {
                    samples.push(self.latest_chunk[i]);
                    proof {
                        assert(samples@ =~= self.latest_chunk@.take(i as int + 1));
                    }
                    i += 1;
                }
                proof {
                    assert(samples@ =~= self.latest_chunk@);
                }
                SpectrumSource::Analyze { samples, layout }
            },
            None => SpectrumSource::Silence { bands: num_bands },
        }
    }

    /// Whether monitoring is on.
    pub fn running(&self) -> (r: bool)
        ensures
            r == self.running,
    {
        self.running
    }

    /// The chunk size of the next capture session.
    pub fn chunk_size(&self) -> (r: u32)
        requires
            self.wf(),
        ensures
            r == self.chunk_size,
    {
        self.chunk_size as u32
    }

    /// The currently selected device id, if any.
    pub fn current_device_id(&self) -> (r: Option<String>)
        ensures
            match (r, self.device_id) {
                (Some(a), Some(b)) => a@ == b@,
                (None, None) => true,
                _ => false,
            },
    {
        match &self.device_id {
            Some(id) => Some(id.clone()),
            None => None,
        }
    }
}

} // verus!
