use voice_registry::{JoinError, JoinStep, LeaveError, PlayError, VoiceConnectionRegistry};

fn joined(r: &mut VoiceConnectionRegistry, guild: u64, channel: u64, ticket: u64) {
    assert!(matches!(r.begin_join(guild, channel, ticket), JoinStep::Connect));
    let settled = r.finish_join(guild, true).unwrap();
    assert_eq!(settled.outcome, Ok(()));
}

#[test]
fn new_registry_is_empty() {
    let r = VoiceConnectionRegistry::new();
    assert_eq!(r.channel_of(1), None);
    assert!(!r.is_connecting(1));
}

#[test]
fn first_join_connects() {
    let mut r = VoiceConnectionRegistry::new();
    assert!(matches!(r.begin_join(7, 70, 1), JoinStep::Connect));
    assert!(r.is_connecting(7));
    assert_eq!(r.channel_of(7), None);
    let settled = r.finish_join(7, true).unwrap();
    assert_eq!(settled.channel, 70);
    assert_eq!(settled.outcome, Ok(()));
    assert_eq!(settled.tickets, vec![1]);
    assert_eq!(r.channel_of(7), Some(70));
    assert!(!r.is_connecting(7));
}

#[test]
fn join_twice_same_channel_is_idempotent() {
    let mut r = VoiceConnectionRegistry::new();
    joined(&mut r, 7, 70, 1);
    assert!(matches!(r.begin_join(7, 70, 2), JoinStep::Done(Ok(()))));
    assert_eq!(r.channel_of(7), Some(70));
    assert!(!r.is_connecting(7));
    assert!(r.finish_join(7, true).is_none());
}

#[test]
fn join_other_channel_is_refused() {
    let mut r = VoiceConnectionRegistry::new();
    joined(&mut r, 7, 70, 1);
    assert!(matches!(
        r.begin_join(7, 71, 2),
        JoinStep::Done(Err(JoinError::AlreadyConnectedDifferentChannel))
    ));
    assert_eq!(r.channel_of(7), Some(70));
}

#[test]
fn join_other_channel_while_connecting_is_refused() {
    let mut r = VoiceConnectionRegistry::new();
    assert!(matches!(r.begin_join(7, 70, 1), JoinStep::Connect));
    assert!(matches!(
        r.begin_join(7, 71, 2),
        JoinStep::Done(Err(JoinError::AlreadyConnectedDifferentChannel))
    ));
    let settled = r.finish_join(7, true).unwrap();
    assert_eq!(settled.tickets, vec![1]);
    assert_eq!(r.channel_of(7), Some(70));
}

#[test]
fn leave_without_join_is_not_connected() {
    let mut r = VoiceConnectionRegistry::new();
    joined(&mut r, 8, 80, 1);
    assert_eq!(r.leave(7), Err(LeaveError::NotConnected));
    assert_eq!(r.channel_of(7), None);
    assert_eq!(r.channel_of(8), Some(80));
}

#[test]
fn leave_ends_the_session() {
    let mut r = VoiceConnectionRegistry::new();
    joined(&mut r, 7, 70, 1);
    assert_eq!(r.leave(7), Ok(70));
    assert_eq!(r.channel_of(7), None);
    assert_eq!(r.leave(7), Err(LeaveError::NotConnected));
    assert!(matches!(r.begin_join(7, 71, 2), JoinStep::Connect));
}

#[test]
fn leave_while_connecting_is_not_connected() {
    let mut r = VoiceConnectionRegistry::new();
    assert!(matches!(r.begin_join(7, 70, 1), JoinStep::Connect));
    assert_eq!(r.leave(7), Err(LeaveError::NotConnected));
    assert!(r.is_connecting(7));
}

#[test]
fn play_without_join_is_not_connected() {
    let r = VoiceConnectionRegistry::new();
    assert_eq!(r.play(7), Err(PlayError::NotConnected));
}

#[test]
fn play_while_connecting_is_not_connected() {
    let mut r = VoiceConnectionRegistry::new();
    assert!(matches!(r.begin_join(7, 70, 1), JoinStep::Connect));
    assert_eq!(r.play(7), Err(PlayError::NotConnected));
}

#[test]
fn play_on_session_gives_its_channel() {
    let mut r = VoiceConnectionRegistry::new();
    joined(&mut r, 7, 70, 1);
    assert_eq!(r.play(7), Ok(70));
}

#[test]
fn playback_outcome_reports_unavailable_source() {
    assert_eq!(VoiceConnectionRegistry::playback_outcome(true), Ok(()));
    assert_eq!(
        VoiceConnectionRegistry::playback_outcome(false),
        Err(PlayError::SourceUnavailable)
    );
}

#[test]
fn concurrent_joins_share_one_connect() {
    let mut r = VoiceConnectionRegistry::new();
    assert!(matches!(r.begin_join(7, 70, 10), JoinStep::Connect));
    for t in 11..15u64 {
        assert!(matches!(r.begin_join(7, 70, t), JoinStep::Wait));
    }
    let settled = r.finish_join(7, true).unwrap();
    assert_eq!(settled.outcome, Ok(()));
    assert_eq!(settled.tickets, vec![10, 11, 12, 13, 14]);
    assert_eq!(r.channel_of(7), Some(70));
}

#[test]
fn concurrent_joins_share_one_failure() {
    let mut r = VoiceConnectionRegistry::new();
    assert!(matches!(r.begin_join(7, 70, 10), JoinStep::Connect));
    assert!(matches!(r.begin_join(7, 70, 11), JoinStep::Wait));
    assert!(matches!(r.begin_join(7, 70, 12), JoinStep::Wait));
    let settled = r.finish_join(7, false).unwrap();
    assert_eq!(settled.outcome, Err(JoinError::ConnectFailed));
    assert_eq!(settled.tickets, vec![10, 11, 12]);
    assert_eq!(r.channel_of(7), None);
    assert!(!r.is_connecting(7));
    assert!(matches!(r.begin_join(7, 70, 13), JoinStep::Connect));
}

#[test]
fn finish_without_attempt_is_none() {
    let mut r = VoiceConnectionRegistry::new();
    assert!(r.finish_join(7, true).is_none());
    assert_eq!(r.channel_of(7), None);
}

#[test]
fn guilds_are_independent() {
    let mut r = VoiceConnectionRegistry::new();
    assert!(matches!(r.begin_join(1, 10, 1), JoinStep::Connect));
    joined(&mut r, 2, 20, 2);
    assert_eq!(r.play(2), Ok(20));
    assert_eq!(r.leave(2), Ok(20));
    assert!(r.is_connecting(1));
    let settled = r.finish_join(1, true).unwrap();
    assert_eq!(settled.tickets, vec![1]);
    assert_eq!(r.channel_of(1), Some(10));
    assert_eq!(r.channel_of(2), None);
}
