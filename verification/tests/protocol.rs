//! Driving the encode protocol state machine through complete runs.

use wav_encoder::encoder::EncodeError;
use wav_encoder::format::AudioFormatDescriptor;
use wav_encoder::pipeline::EncodeAction;
use wav_encoder::pipeline::EncodeEvent;
use wav_encoder::pipeline::EncodeSession;

fn fmt(channel_count: u16, sample_rate_hz: u32, bits_per_sample: u16) -> AudioFormatDescriptor {
    AudioFormatDescriptor { channel_count, sample_rate_hz, bits_per_sample }
}

/// Feed a scripted event per action until the session stops; return the
/// actions carried out and the outcome.
fn drive(
    format: AudioFormatDescriptor,
    mut answer: impl FnMut(&EncodeAction) -> EncodeEvent,
) -> (Vec<EncodeAction>, Result<(), EncodeError>) {
    let mut session = EncodeSession::new(format);
    let mut actions: Vec<EncodeAction> = Vec::new();
    loop {
        let action = session.next_action();
        if action == EncodeAction::Stop {
            return (actions, session.outcome().unwrap());
        }
        let event = answer(&action);
        actions.push(action);
        session.step(event);
    }
}

fn count_unlocks(actions: &[EncodeAction]) -> usize {
    actions.iter().filter(|a| matches!(a, EncodeAction::UnlockSource)).count()
}

fn count_locks(actions: &[EncodeAction]) -> usize {
    actions.iter().filter(|a| matches!(a, EncodeAction::LockSource { .. })).count()
}

#[test]
fn successful_run_unlocks_exactly_once() {
    let (actions, outcome) = drive(fmt(2, 44100, 16), |action| match action {
        EncodeAction::QueryLength => EncodeEvent::LengthKnown { len_bytes: 8192 },
        EncodeAction::WriteHeader { .. } => EncodeEvent::SinkWrote,
        EncodeAction::LockSource { .. } => EncodeEvent::Locked,
        EncodeAction::WriteLockedData => EncodeEvent::SinkWrote,
        EncodeAction::UnlockSource => EncodeEvent::Unlocked,
        EncodeAction::Stop => unreachable!(),
    });
    assert_eq!(outcome, Ok(()));
    assert_eq!(count_locks(&actions), 1);
    assert_eq!(count_unlocks(&actions), 1);
    assert_eq!(
        actions,
        vec![
            EncodeAction::QueryLength,
            EncodeAction::WriteHeader { len_bytes: 8192 },
            EncodeAction::LockSource { offset: 0, len_bytes: 8192 },
            EncodeAction::WriteLockedData,
            EncodeAction::UnlockSource,
        ]
    );
}

#[test]
fn data_write_failure_still_unlocks_exactly_once() {
    let (actions, outcome) = drive(fmt(2, 44100, 16), |action| match action {
        EncodeAction::QueryLength => EncodeEvent::LengthKnown { len_bytes: 100 },
        EncodeAction::WriteHeader { .. } => EncodeEvent::SinkWrote,
        EncodeAction::LockSource { .. } => EncodeEvent::Locked,
        EncodeAction::WriteLockedData => EncodeEvent::SinkRefused,
        EncodeAction::UnlockSource => EncodeEvent::Unlocked,
        EncodeAction::Stop => unreachable!(),
    });
    assert_eq!(outcome, Err(EncodeError::SinkWriteFailed));
    assert_eq!(count_unlocks(&actions), 1);
}

#[test]
fn unlock_failure_after_clean_writes_is_reported() {
    let (actions, outcome) = drive(fmt(2, 44100, 16), |action| match action {
        EncodeAction::QueryLength => EncodeEvent::LengthKnown { len_bytes: 100 },
        EncodeAction::WriteHeader { .. } => EncodeEvent::SinkWrote,
        EncodeAction::LockSource { .. } => EncodeEvent::Locked,
        EncodeAction::WriteLockedData => EncodeEvent::SinkWrote,
        EncodeAction::UnlockSource => EncodeEvent::UnlockRefused,
        EncodeAction::Stop => unreachable!(),
    });
    assert_eq!(outcome, Err(EncodeError::UnlockFailed));
    assert_eq!(count_unlocks(&actions), 1);
}

#[test]
fn unlock_failure_does_not_mask_write_failure() {
    let (_, outcome) = drive(fmt(2, 44100, 16), |action| match action {
        EncodeAction::QueryLength => EncodeEvent::LengthKnown { len_bytes: 100 },
        EncodeAction::WriteHeader { .. } => EncodeEvent::SinkWrote,
        EncodeAction::LockSource { .. } => EncodeEvent::Locked,
        EncodeAction::WriteLockedData => EncodeEvent::SinkRefused,
        EncodeAction::UnlockSource => EncodeEvent::UnlockRefused,
        EncodeAction::Stop => unreachable!(),
    });
    assert_eq!(outcome, Err(EncodeError::SinkWriteFailed));
}

#[test]
fn lock_refusal_fails_without_any_unlock() {
    let (actions, outcome) = drive(fmt(2, 44100, 16), |action| match action {
        EncodeAction::QueryLength => EncodeEvent::LengthKnown { len_bytes: 100 },
        EncodeAction::WriteHeader { .. } => EncodeEvent::SinkWrote,
        EncodeAction::LockSource { .. } => EncodeEvent::LockRefused,
        _ => unreachable!(),
    });
    assert_eq!(outcome, Err(EncodeError::LockFailed));
    assert_eq!(count_unlocks(&actions), 0);
    // the header had already been handed to the sink when the lock failed
    assert!(matches!(actions[1], EncodeAction::WriteHeader { .. }));
    assert!(matches!(actions[2], EncodeAction::LockSource { .. }));
}

#[test]
fn length_query_failure_fails_before_any_sink_action() {
    let (actions, outcome) = drive(fmt(2, 44100, 16), |action| match action {
        EncodeAction::QueryLength => EncodeEvent::LengthUnknown,
        _ => unreachable!(),
    });
    assert_eq!(outcome, Err(EncodeError::SourceUnavailable));
    assert_eq!(actions, vec![EncodeAction::QueryLength]);
}

#[test]
fn header_write_refusal_fails_without_lock_or_unlock() {
    let (actions, outcome) = drive(fmt(2, 44100, 16), |action| match action {
        EncodeAction::QueryLength => EncodeEvent::LengthKnown { len_bytes: 100 },
        EncodeAction::WriteHeader { .. } => EncodeEvent::SinkRefused,
        _ => unreachable!(),
    });
    assert_eq!(outcome, Err(EncodeError::SinkWriteFailed));
    assert_eq!(count_locks(&actions), 0);
    assert_eq!(count_unlocks(&actions), 0);
}

#[test]
fn oversized_length_report_is_refused() {
    let (actions, outcome) = drive(fmt(2, 44100, 16), |action| match action {
        EncodeAction::QueryLength => EncodeEvent::LengthKnown { len_bytes: 0xFFFF_FFFF },
        _ => unreachable!(),
    });
    assert_eq!(outcome, Err(EncodeError::SourceUnavailable));
    assert_eq!(actions, vec![EncodeAction::QueryLength]);
}

#[test]
fn invalid_format_stops_before_any_action() {
    let session = EncodeSession::new(fmt(0, 44100, 16));
    assert_eq!(session.next_action(), EncodeAction::Stop);
    assert_eq!(session.outcome(), Some(Err(EncodeError::InvalidFormat)));
    let (actions, outcome) = drive(fmt(0, 44100, 16), |_| unreachable!());
    assert_eq!(outcome, Err(EncodeError::InvalidFormat));
    assert!(actions.is_empty());
}

#[test]
fn session_header_matches_rendered_header() {
    let f = fmt(2, 44100, 16);
    let mut session = EncodeSession::new(f);
    session.step(EncodeEvent::LengthKnown { len_bytes: 8192 });
    assert_eq!(session.next_action(), EncodeAction::WriteHeader { len_bytes: 8192 });
    let header = session.header_bytes();
    assert_eq!(header, wav_encoder::header::render_header(&f, 8192));
    assert_eq!(header.len(), 44);
}
