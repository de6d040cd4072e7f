//! The encode protocol against an external sample source and a byte
//! sink, as a state machine.
//!
//! The machine owns every decision of the pipeline; a driver performing
//! the actual I/O asks it for the next action, carries that action out,
//! and reports the outcome as an event. One encode walks the phases
//! validate, query the payload length, write the 44-byte header, lock
//! the full payload range, write the locked segments in order, unlock,
//! done. Unlock is reached on every path out of a successful lock,
//! whether the data writes succeeded or not, and the unlock hands both
//! segments back even when the second is empty; an unlock failure after
//! a write failure does not mask the write failure.

use vstd::prelude::*;

verus! {

use crate::encoder::EncodeError;
use crate::format::AudioFormatDescriptor;
use crate::header::render_header;
use crate::header::wav_header_bytes;

/// The phase an encode has reached.
#[derive(Clone, Copy, PartialEq, Eq, Debug)]
pub enum EncodePhase {
    /// Waiting for the source to report the payload length in bytes.
    QueryingLength,
    /// Waiting for the sink to take the 44-byte header.
    WritingHeader { len_bytes: u32 },
    /// Waiting for the source to lock the full payload range.
    LockingSource { len_bytes: u32 },
    /// Waiting for the sink to take the locked segments, in order.
    WritingData { len_bytes: u32 },
    /// Waiting for the source to release both segments.
    UnlockingSource { data_written: bool },
    /// The encode completed and the stream is whole.
    Succeeded,
    /// The encode stopped with an error.
    Failed { error: EncodeError },
}

/// What the driver reports back after carrying out an action.
#[derive(Clone, Copy, PartialEq, Eq, Debug)]
pub enum EncodeEvent {
    /// The source reported the payload length in bytes.
    LengthKnown { len_bytes: u32 },
    /// The source could not report a length.
    LengthUnknown,
    /// The sink took the requested bytes.
    SinkWrote,
    /// The sink refused the requested bytes.
    SinkRefused,
    /// The source locked the requested range.
    Locked,
    /// The source refused the lock.
    LockRefused,
    /// The source released both segments.
    Unlocked,
    /// The source failed to release the segments.
    UnlockRefused,
}

/// What the driver is asked to do next.
#[derive(Clone, Copy, PartialEq, Eq, Structural, Debug)]
pub enum EncodeAction {
    /// Ask the source for the payload length, in bytes exactly.
    QueryLength,
    /// Hand the 44-byte header to the sink.
    WriteHeader { len_bytes: u32 },
    /// Lock the payload range `[offset, offset + len_bytes)` of the
    /// source; the lock answers with two ordered segments.
    LockSource { offset: u32, len_bytes: u32 },
    /// Hand the locked segments to the sink: the first fully, then the
    /// second if it is not empty.
    WriteLockedData,
    /// Release the lock, handing both segments back even when one is
    /// empty.
    UnlockSource,
    /// Nothing is left to do.
    Stop,
}

/// The phase a fresh encode starts in: a malformed descriptor fails
/// before any action is issued.
pub open spec fn start_phase(format: AudioFormatDescriptor) -> EncodePhase {
    if format.valid() {
        EncodePhase::QueryingLength
    } else {
        EncodePhase::Failed { error: EncodeError::InvalidFormat }
    }
}

/// The encode is over, well or badly.
pub open spec fn phase_terminal(p: EncodePhase) -> bool {
    p is Succeeded || p is Failed
}

/// The events that answer the action pending in a phase. Terminal
/// phases expect no event.
pub open spec fn phase_expects(p: EncodePhase, ev: EncodeEvent) -> bool {
    match p {
        EncodePhase::QueryingLength => ev is LengthKnown || ev is LengthUnknown,
        EncodePhase::WritingHeader { .. } => ev is SinkWrote || ev is SinkRefused,
        EncodePhase::LockingSource { .. } => ev is Locked || ev is LockRefused,
        EncodePhase::WritingData { .. } => ev is SinkWrote || ev is SinkRefused,
        EncodePhase::UnlockingSource { .. } => ev is Unlocked || ev is UnlockRefused,
        EncodePhase::Succeeded => false,
        EncodePhase::Failed { .. } => false,
    }
}

/// The phase after an event. An event that does not answer the pending
/// action leaves the phase unchanged.
pub open spec fn step_phase(p: EncodePhase, ev: EncodeEvent) -> EncodePhase {
    match p {
        EncodePhase::QueryingLength => match ev {
            EncodeEvent::LengthKnown { len_bytes } => if len_bytes <= 0xFFFF_FFFF - 36 {
                EncodePhase::WritingHeader { len_bytes }
            } else {
                // The RIFF container size field cannot hold 36 more
                // than this length, so the source is unusable here.
                EncodePhase::Failed { error: EncodeError::SourceUnavailable }
            },
            EncodeEvent::LengthUnknown => EncodePhase::Failed {
                error: EncodeError::SourceUnavailable,
            },
            _ => p,
        },
        EncodePhase::WritingHeader { len_bytes } => match ev {
            EncodeEvent::SinkWrote => EncodePhase::LockingSource { len_bytes },
            EncodeEvent::SinkRefused => EncodePhase::Failed {
                error: EncodeError::SinkWriteFailed,
            },
            _ => p,
        },
        EncodePhase::LockingSource { len_bytes } => match ev {
            EncodeEvent::Locked => EncodePhase::WritingData { len_bytes },
            EncodeEvent::LockRefused => EncodePhase::Failed { error: EncodeError::LockFailed },
            _ => p,
        },
        EncodePhase::WritingData { .. } => match ev {
            EncodeEvent::SinkWrote => EncodePhase::UnlockingSource { data_written: true },
            EncodeEvent::SinkRefused => EncodePhase::UnlockingSource { data_written: false },
            _ => p,
        },
        EncodePhase::UnlockingSource { data_written } => match ev {
            EncodeEvent::Unlocked => if data_written {
                EncodePhase::Succeeded
            } else {
                EncodePhase::Failed { error: EncodeError::SinkWriteFailed }
            },
            EncodeEvent::UnlockRefused => if data_written {
                EncodePhase::Failed { error: EncodeError::UnlockFailed }
            } else {
                // The earlier write failure is reported, not masked.
                EncodePhase::Failed { error: EncodeError::SinkWriteFailed }
            },
            _ => p,
        },
        EncodePhase::Succeeded => p,
        EncodePhase::Failed { .. } => p,
    }
}

/// The action pending in a phase.
pub open spec fn phase_action(p: EncodePhase) -> EncodeAction {
    match p {
        EncodePhase::QueryingLength => EncodeAction::QueryLength,
        EncodePhase::WritingHeader { len_bytes } => EncodeAction::WriteHeader { len_bytes },
        EncodePhase::LockingSource { len_bytes } => EncodeAction::LockSource {
            offset: 0,
            len_bytes,
        },
        EncodePhase::WritingData { .. } => EncodeAction::WriteLockedData,
        EncodePhase::UnlockingSource { .. } => EncodeAction::UnlockSource,
        EncodePhase::Succeeded => EncodeAction::Stop,
        EncodePhase::Failed { .. } => EncodeAction::Stop,
    }
}

/// One encode of one source into one sink, as far as it has got.
pub struct EncodeSession {
    /// The PCM layout the header is built from.
    pub format: AudioFormatDescriptor,
    /// The phase the encode has reached.
    pub phase: EncodePhase,
}

impl EncodeSession {
    /// A session away from its terminal phases carries a valid format
    /// and a payload length the container size field can hold.
    pub open spec fn wf(self) -> bool {
        &&& !phase_terminal(self.phase) ==> self.format.valid()
        &&& self.phase matches EncodePhase::WritingHeader { len_bytes } ==> len_bytes
            <= 0xFFFF_FFFF - 36
        &&& self.phase matches EncodePhase::LockingSource { len_bytes } ==> len_bytes
            <= 0xFFFF_FFFF - 36
        &&& self.phase matches EncodePhase::WritingData { len_bytes } ==> len_bytes
            <= 0xFFFF_FFFF - 36
    }

    /// Open an encode for one format. A malformed descriptor fails at
    /// once: the session is already terminal and no action but `Stop`
    /// is ever issued, so no file is created or opened for it.
    pub fn new(format: AudioFormatDescriptor) -> (s: Self)
        ensures
            s.format == format,
            s.phase == start_phase(format),
            s.wf(),
    {
        let phase = if format.is_valid() {
            EncodePhase::QueryingLength
        } else {
            EncodePhase::Failed { error: EncodeError::InvalidFormat }
        };
        EncodeSession { format, phase }
    }

    /// The action the driver should carry out next.
    pub fn next_action(&self) -> (a: EncodeAction)
        ensures
            a == phase_action(self.phase),
    {
        match self.phase {
            EncodePhase::QueryingLength => EncodeAction::QueryLength,
            EncodePhase::WritingHeader { len_bytes } => EncodeAction::WriteHeader { len_bytes },
            EncodePhase::LockingSource { len_bytes } => EncodeAction::LockSource {
                offset: 0,
                len_bytes,
            },
            EncodePhase::WritingData { .. } => EncodeAction::WriteLockedData,
            EncodePhase::UnlockingSource { .. } => EncodeAction::UnlockSource,
            EncodePhase::Succeeded => EncodeAction::Stop,
            EncodePhase::Failed { .. } => EncodeAction::Stop,
        }
    }

    /// Advance by one reported event.
    pub fn step(&mut self, event: EncodeEvent)
        ensures
            final(self).format == old(self).format,
            final(self).phase == step_phase(old(self).phase, event),
            old(self).wf() ==> final(self).wf(),
    {
        let p = self.phase;
        self.phase = match p {
            EncodePhase::QueryingLength => match event {
                EncodeEvent::LengthKnown { len_bytes } => if len_bytes <= 0xFFFF_FFFF - 36 {
                    EncodePhase::WritingHeader { len_bytes }
                } else {
                    EncodePhase::Failed { error: EncodeError::SourceUnavailable }
                },
                EncodeEvent::LengthUnknown => EncodePhase::Failed {
                    error: EncodeError::SourceUnavailable,
                },
                _ => p,
            },
            EncodePhase::WritingHeader { len_bytes } => match event {
                EncodeEvent::SinkWrote => EncodePhase::LockingSource { len_bytes },
                EncodeEvent::SinkRefused => EncodePhase::Failed {
                    error: EncodeError::SinkWriteFailed,
                },
                _ => p,
            },
            EncodePhase::LockingSource { len_bytes } => match event {
                EncodeEvent::Locked => EncodePhase::WritingData { len_bytes },
                EncodeEvent::LockRefused => EncodePhase::Failed {
                    error: EncodeError::LockFailed,
                },
                _ => p,
            },
            EncodePhase::WritingData { .. } => match event {
                EncodeEvent::SinkWrote => EncodePhase::UnlockingSource { data_written: true },
                EncodeEvent::SinkRefused => EncodePhase::UnlockingSource { data_written: false },
                _ => p,
            },
            EncodePhase::UnlockingSource { data_written } => match event {
                EncodeEvent::Unlocked => if data_written {
                    EncodePhase::Succeeded
                } else {
                    EncodePhase::Failed { error: EncodeError::SinkWriteFailed }
                },
                EncodeEvent::UnlockRefused => if data_written {
                    EncodePhase::Failed { error: EncodeError::UnlockFailed }
                } else {
                    EncodePhase::Failed { error: EncodeError::SinkWriteFailed }
                },
                _ => p,
            },
            EncodePhase::Succeeded => p,
            EncodePhase::Failed { .. } => p,
        };
    }

    /// The header bytes the pending `WriteHeader` action asks the
    /// driver to hand to the sink.
    pub fn header_bytes(&self) -> (r: Vec<u8>)
        requires
            self.wf(),
            self.phase is WritingHeader,
        ensures
            self.phase matches EncodePhase::WritingHeader { len_bytes } ==> r@
                == wav_header_bytes(self.format, len_bytes) && r@.len() == 44,
    {
        match self.phase {
            EncodePhase::WritingHeader { len_bytes } => render_header(&self.format, len_bytes),
            _ => Vec::new(),
        }
    }

    /// The outcome, once the session is terminal.
    pub fn outcome(&self) -> (r: Option<Result<(), EncodeError>>)
        ensures
            r is Some <==> phase_terminal(self.phase),
            self.phase is Succeeded ==> r == Some(Ok::<(), EncodeError>(())),
            self.phase matches EncodePhase::Failed { error } ==> r == Some(
                Err::<(), EncodeError>(error),
            ),
    {
        match self.phase {
            EncodePhase::Succeeded => Some(Ok(())),
            EncodePhase::Failed { error } => Some(Err(error)),
            _ => None,
        }
    }
}

/// The phase after a whole sequence of events.
pub open spec fn run_phase(p: EncodePhase, events: Seq<EncodeEvent>) -> EncodePhase
    decreases events.len(),
{
    if events.len() == 0 {
        p
    } else {
        run_phase(step_phase(p, events[0]), events.drop_first())
    }
}

/// Every event of the sequence answers the action pending when it
/// arrives: the shape of every run a driver of the protocol produces.
pub open spec fn fitting_run(p: EncodePhase, events: Seq<EncodeEvent>) -> bool
    decreases events.len(),
{
    events.len() == 0 || (phase_expects(p, events[0]) && fitting_run(
        step_phase(p, events[0]),
        events.drop_first(),
    ))
}

/// How often a run visits the unlocking phase: each visit is one
/// `UnlockSource` action carried out by the driver. The phase reached
/// after the last event is counted too.
pub open spec fn unlock_action_count(p: EncodePhase, events: Seq<EncodeEvent>) -> int
    decreases events.len(),
{
    (if p is UnlockingSource {
        1int
    } else {
        0int
    }) + if events.len() == 0 {
        0int
    } else {
        unlock_action_count(step_phase(p, events[0]), events.drop_first())
    }
}

/// How many lock requests of a run the source answered with success.
pub open spec fn successful_lock_count(p: EncodePhase, events: Seq<EncodeEvent>) -> int
    decreases events.len(),
{
    if events.len() == 0 {
        0int
    } else {
        (if p is LockingSource && events[0] is Locked {
            1int
        } else {
            0int
        }) + successful_lock_count(step_phase(p, events[0]), events.drop_first())
    }
}

/// Accounting behind the unlock law, stated from any phase: along a
/// fitting run that reaches a terminal phase, the unlock actions issued
/// balance the successful locks, plus one when the run starts with the
/// lock already held; and at most one lock can still succeed.
proof fn lemma_unlock_balance(p: EncodePhase, events: Seq<EncodeEvent>)
    requires
        fitting_run(p, events),
        phase_terminal(run_phase(p, events)),
    ensures
        unlock_action_count(p, events) == successful_lock_count(p, events) + if p is WritingData
            || p is UnlockingSource {
            1int
        } else {
            0int
        },
        successful_lock_count(p, events) <= if p is QueryingLength || p is WritingHeader
            || p is LockingSource {
            1int
        } else {
            0int
        },
    decreases events.len(),
{
    if events.len() > 0 {
        lemma_unlock_balance(step_phase(p, events[0]), events.drop_first());
    }
}

/// Unlock is carried out exactly once per successful lock: along any
/// complete run of the protocol, from the start to a terminal phase,
/// the driver is told to unlock exactly as often as a lock succeeded,
/// and that is never more than once — whether the data writes
/// succeeded, failed, or the run never reached the lock.
pub proof fn lemma_unlock_exactly_once_per_lock(
    format: AudioFormatDescriptor,
    events: Seq<EncodeEvent>,
)
    requires
        fitting_run(start_phase(format), events),
        phase_terminal(run_phase(start_phase(format), events)),
    ensures
        unlock_action_count(start_phase(format), events) == successful_lock_count(
            start_phase(format),
            events,
        ),
        successful_lock_count(start_phase(format), events) <= 1,
{
    lemma_unlock_balance(start_phase(format), events);
}

} // verus!
