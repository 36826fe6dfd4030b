use voice_sessions::broker::{Greeting, Notification};
use voice_sessions::errors::{ConnectError, ConnectionHandle, DisconnectError, ErrorKind};
use voice_sessions::ids::{ChannelId, MemberId, ReactionId, TenantId, TrackHandle};
use voice_sessions::manager::{Effects, VoiceManager};
use voice_sessions::session::{EndCause, Phase, ToggleStatus, TrackEnd};

const T: TenantId = TenantId(1);

fn connected_manager() -> VoiceManager {
    let mut m = VoiceManager::new(MemberId(42));
    m.join(T, ChannelId(10), Ok(ConnectionHandle(0))).unwrap();
    m
}

fn halted(track: u64) -> TrackEnd {
    TrackEnd { track: TrackHandle(track), cause: EndCause::Stopped }
}

fn play_order(m: &VoiceManager) -> Vec<TrackHandle> {
    let s = m.session(T).unwrap();
    let mut order = Vec::new();
    if let Some(t) = s.active_track() {
        order.push(t);
    }
    let mut i = 0;
    while let Some(t) = s.queue().get(i) {
        order.push(t);
        i += 1;
    }
    order
}

#[test]
fn manager_starts_without_sessions() {
    let m = VoiceManager::new(MemberId(42));
    assert_eq!(m.member(), MemberId(42));
    assert!(m.room_for(T));
    assert!(!m.is_connected(T));
    assert!(m.session(T).is_none());
    assert_eq!(m.registry().len(), 0);
    assert_eq!(m.current_channel(T), Err(ErrorKind::NotConnected));
}

#[test]
fn enqueue_without_session_is_not_connected() {
    let mut m = VoiceManager::new(MemberId(42));
    assert_eq!(m.enqueue(T, TrackHandle(1)), Err(ErrorKind::NotConnected));
    assert!(m.session(T).is_none());
    assert_eq!(m.registry().len(), 0);
}

#[test]
fn operations_without_session_are_not_connected() {
    let mut m = VoiceManager::new(MemberId(42));
    assert_eq!(m.play_now(T, TrackHandle(1)), Err(ErrorKind::NotConnected));
    assert_eq!(m.skip(T), Err(ErrorKind::NotConnected));
    assert_eq!(m.stop_all(T), Err(ErrorKind::NotConnected));
    assert_eq!(m.hang_up(T), Err(ErrorKind::NotConnected));
    assert_eq!(m.track_finished(T, TrackHandle(1)), Err(ErrorKind::NotConnected));
    assert_eq!(m.set_mute(T, true), Err(ErrorKind::NotConnected));
    assert_eq!(m.set_deafen(T, true), Err(ErrorKind::NotConnected));
    assert_eq!(m.on_track_end(T, TrackHandle(1), ReactionId(1)), Err(ErrorKind::NotConnected));
    assert_eq!(m.leave(T, Ok(())), Err(ErrorKind::NotConnected));
    assert_eq!(m.registry().len(), 0);
}

#[test]
fn join_makes_a_session() {
    let m = connected_manager();
    assert!(m.is_connected(T));
    assert_eq!(m.current_channel(T), Ok(Some(ChannelId(10))));
    assert_eq!(m.session(T).unwrap().phase(), Phase::Idle);
}

#[test]
fn failed_join_makes_no_session() {
    let mut m = VoiceManager::new(MemberId(42));
    let link = Err(ConnectError { detail: String::from("refused") });
    assert_eq!(m.join(T, ChannelId(10), link), Err(ErrorKind::ConnectionFailed));
    assert!(!m.is_connected(T));
}

#[test]
fn join_moves_an_existing_session() {
    let mut m = connected_manager();
    m.enqueue(T, TrackHandle(1)).unwrap();
    m.join(T, ChannelId(11), Ok(ConnectionHandle(1))).unwrap();
    assert_eq!(m.current_channel(T), Ok(Some(ChannelId(11))));
    assert_eq!(play_order(&m), vec![TrackHandle(1)]);
    assert_eq!(m.registry().len(), 1);
    let link = Err(ConnectError { detail: String::from("refused") });
    assert_eq!(m.join(T, ChannelId(12), link), Err(ErrorKind::ConnectionFailed));
    assert_eq!(m.current_channel(T), Ok(Some(ChannelId(11))));
}

#[test]
fn enqueue_twice_then_skip() {
    let mut m = connected_manager();
    assert_eq!(m.enqueue(T, TrackHandle(1)), Ok(1));
    assert_eq!(m.enqueue(T, TrackHandle(2)), Ok(2));
    assert_eq!(m.session(T).unwrap().active_track(), Some(TrackHandle(1)));
    assert_eq!(play_order(&m), vec![TrackHandle(1), TrackHandle(2)]);
    let fx = m.skip(T).unwrap();
    assert_eq!(fx.remaining_count, 0);
    assert_eq!(fx.started, Some(TrackHandle(2)));
    assert_eq!(fx.ended, vec![halted(1)]);
    assert_eq!(m.session(T).unwrap().active_track(), Some(TrackHandle(2)));
    assert_eq!(m.session(T).unwrap().queue().len(), 0);
}

#[test]
fn play_now_fires_the_interrupted_tracks_reaction_as_stopped() {
    let mut m = connected_manager();
    m.enqueue(T, TrackHandle(2)).unwrap();
    m.enqueue(T, TrackHandle(4)).unwrap();
    assert_eq!(m.on_track_end(T, TrackHandle(2), ReactionId(9)), Ok(true));
    let fx = m.play_now(T, TrackHandle(3)).unwrap();
    assert_eq!(
        fx,
        Effects {
            ended: vec![halted(2)],
            started: Some(TrackHandle(3)),
            calls: vec![Notification {
                tenant_id: T,
                track: TrackHandle(2),
                reaction: ReactionId(9),
                cause: EndCause::Stopped,
            }],
            remaining_count: 1,
        }
    );
    assert_eq!(play_order(&m), vec![TrackHandle(3), TrackHandle(4)]);
    let fx = m.play_now(T, TrackHandle(5)).unwrap();
    assert_eq!(fx.calls, vec![]);
    assert_eq!(fx.ended, vec![halted(3)]);
    assert_eq!(m.track_finished(T, TrackHandle(2)).unwrap().calls, vec![]);
}

#[test]
fn stop_all_fires_every_waiting_reaction_as_stopped() {
    let mut m = connected_manager();
    for id in 1..=3u64 {
        m.enqueue(T, TrackHandle(id)).unwrap();
    }
    m.on_track_end(T, TrackHandle(3), ReactionId(30)).unwrap();
    m.on_track_end(T, TrackHandle(1), ReactionId(10)).unwrap();
    let fx = m.stop_all(T).unwrap();
    assert_eq!(fx.ended, vec![halted(1), halted(2), halted(3)]);
    assert_eq!(fx.started, None);
    assert_eq!(fx.remaining_count, 0);
    assert_eq!(
        fx.calls,
        vec![
            Notification {
                tenant_id: T,
                track: TrackHandle(1),
                reaction: ReactionId(10),
                cause: EndCause::Stopped
            },
            Notification {
                tenant_id: T,
                track: TrackHandle(3),
                reaction: ReactionId(30),
                cause: EndCause::Stopped
            },
        ]
    );
    assert!(m.is_connected(T));
    assert_eq!(m.session(T).unwrap().phase(), Phase::Idle);
    assert_eq!(m.stop_all(T).unwrap().calls, vec![]);
}

#[test]
fn stop_then_enqueue_plays_only_the_new_track() {
    let mut m = connected_manager();
    for id in 1..=3u64 {
        m.enqueue(T, TrackHandle(id)).unwrap();
    }
    m.stop_all(T).unwrap();
    assert_eq!(m.enqueue(T, TrackHandle(9)), Ok(1));
    assert_eq!(play_order(&m), vec![TrackHandle(9)]);
}

#[test]
fn finished_track_fires_its_reaction_as_finished() {
    let mut m = connected_manager();
    m.enqueue(T, TrackHandle(1)).unwrap();
    m.enqueue(T, TrackHandle(2)).unwrap();
    m.on_track_end(T, TrackHandle(1), ReactionId(10)).unwrap();
    let fx = m.track_finished(T, TrackHandle(1)).unwrap();
    assert_eq!(fx.started, Some(TrackHandle(2)));
    assert_eq!(
        fx.calls,
        vec![Notification {
            tenant_id: T,
            track: TrackHandle(1),
            reaction: ReactionId(10),
            cause: EndCause::Finished
        }]
    );
    let fx = m.track_finished(T, TrackHandle(1)).unwrap();
    assert_eq!(fx.ended, vec![]);
    assert_eq!(fx.calls, vec![]);
    assert_eq!(fx.remaining_count, 0);
}

#[test]
fn skip_with_empty_queue_leaves_the_session_idle() {
    let mut m = connected_manager();
    m.enqueue(T, TrackHandle(1)).unwrap();
    let fx = m.skip(T).unwrap();
    assert_eq!(fx.remaining_count, 0);
    assert_eq!(fx.started, None);
    assert_eq!(m.session(T).unwrap().phase(), Phase::Idle);
    let fx = m.skip(T).unwrap();
    assert_eq!(fx.ended, vec![]);
    assert_eq!(fx.remaining_count, 0);
}

#[test]
fn leave_discards_session_and_fires_reactions() {
    let mut m = connected_manager();
    m.enqueue(T, TrackHandle(1)).unwrap();
    m.on_track_end(T, TrackHandle(1), ReactionId(10)).unwrap();
    let fx = m.leave(T, Ok(())).unwrap();
    assert_eq!(fx.ended, vec![halted(1)]);
    assert_eq!(fx.calls.len(), 1);
    assert_eq!(fx.calls[0].cause, EndCause::Stopped);
    assert!(!m.is_connected(T));
    assert_eq!(m.leave(T, Ok(())), Err(ErrorKind::NotConnected));
}

#[test]
fn failed_leave_keeps_the_session() {
    let mut m = connected_manager();
    m.enqueue(T, TrackHandle(1)).unwrap();
    let unlink = Err(DisconnectError { detail: String::from("busy") });
    assert_eq!(m.leave(T, unlink), Err(ErrorKind::DisconnectFailed));
    assert!(m.is_connected(T));
    assert_eq!(play_order(&m), vec![TrackHandle(1)]);
}

#[test]
fn hang_up_keeps_the_session_without_channel() {
    let mut m = connected_manager();
    m.enqueue(T, TrackHandle(1)).unwrap();
    let fx = m.hang_up(T).unwrap();
    assert_eq!(fx.ended, vec![halted(1)]);
    assert!(m.is_connected(T));
    assert_eq!(m.current_channel(T), Ok(None));
    assert_eq!(m.enqueue(T, TrackHandle(2)), Err(ErrorKind::NotConnected));
    assert_eq!(m.play_now(T, TrackHandle(2)), Err(ErrorKind::NotConnected));
    m.join(T, ChannelId(10), Ok(ConnectionHandle(2))).unwrap();
    assert_eq!(m.enqueue(T, TrackHandle(2)), Ok(1));
}

#[test]
fn mute_and_deafen_report_status() {
    let mut m = connected_manager();
    assert_eq!(m.set_mute(T, true), Ok(ToggleStatus::Changed));
    assert_eq!(m.set_mute(T, true), Ok(ToggleStatus::AlreadyInState));
    assert!(m.session(T).unwrap().is_mute());
    assert_eq!(m.set_deafen(T, false), Ok(ToggleStatus::AlreadyInState));
    assert_eq!(m.set_deafen(T, true), Ok(ToggleStatus::Changed));
    assert!(m.session(T).unwrap().is_deaf());
}

#[test]
fn reaction_for_a_track_not_held_is_refused() {
    let mut m = connected_manager();
    m.enqueue(T, TrackHandle(1)).unwrap();
    assert_eq!(m.on_track_end(T, TrackHandle(2), ReactionId(1)), Ok(false));
    assert_eq!(m.skip(T).unwrap().calls, vec![]);
}

#[test]
fn greeting_is_due_once_for_the_bots_own_entry() {
    let m = connected_manager();
    assert_eq!(
        m.on_voice_state_changed(T, MemberId(42), None, Some(ChannelId(10))),
        Some(Greeting { tenant_id: T, channel_id: ChannelId(10) })
    );
    assert_eq!(
        m.on_voice_state_changed(T, MemberId(42), Some(ChannelId(10)), Some(ChannelId(10))),
        None
    );
    assert_eq!(m.on_voice_state_changed(T, MemberId(7), None, Some(ChannelId(10))), None);
}

#[test]
fn sessions_of_two_guilds_do_not_mix() {
    let mut m = connected_manager();
    let other = TenantId(2);
    m.join(other, ChannelId(20), Ok(ConnectionHandle(3))).unwrap();
    m.enqueue(T, TrackHandle(1)).unwrap();
    m.enqueue(other, TrackHandle(1)).unwrap();
    m.on_track_end(other, TrackHandle(1), ReactionId(5)).unwrap();
    assert_eq!(m.stop_all(T).unwrap().calls, vec![]);
    assert_eq!(m.session(other).unwrap().active_track(), Some(TrackHandle(1)));
    assert_eq!(m.stop_all(other).unwrap().calls.len(), 1);
}

#[test]
fn manager_shutdown_discards_everything() {
    let mut m = connected_manager();
    m.join(TenantId(2), ChannelId(20), Ok(ConnectionHandle(3))).unwrap();
    m.enqueue(T, TrackHandle(1)).unwrap();
    m.on_track_end(T, TrackHandle(1), ReactionId(5)).unwrap();
    let out = m.shutdown();
    assert_eq!(out.tenants, vec![T, TenantId(2)]);
    assert_eq!(
        out.calls,
        vec![Notification {
            tenant_id: T,
            track: TrackHandle(1),
            reaction: ReactionId(5),
            cause: EndCause::Stopped
        }]
    );
    assert_eq!(m.shutdown().calls, vec![]);
    assert!(!m.is_connected(T));
    assert_eq!(m.registry().len(), 0);
    m.join(T, ChannelId(10), Ok(ConnectionHandle(4))).unwrap();
    m.enqueue(T, TrackHandle(1)).unwrap();
    assert_eq!(m.skip(T).unwrap().calls, vec![]);
}
