use voice_sessions::broker::Greeting;
use voice_sessions::commands::reply::Reply;
use voice_sessions::errors::{ConnectionHandle, ResolveError};
use voice_sessions::event_handlers::handler::{
    departed, greeting_resolved, greeting_sound, message_reaction, mute, unmute, GreetingPlan,
    MainEventHandler, MessageStep, GREETING_DELAY_MS, GREETING_VOLUME_PERCENT,
};
use voice_sessions::ids::{ChannelId, MemberId, ReactionId, TenantId, TrackHandle};
use voice_sessions::manager::VoiceManager;
use voice_sessions::session::{EndCause, ToggleStatus, TrackEnd};

const HOME: TenantId = TenantId(5);
const BOT: MemberId = MemberId(42);

fn bot_in_channel_x() -> VoiceManager {
    let mut m = VoiceManager::new(BOT);
    m.join(HOME, ChannelId(100), Ok(ConnectionHandle(0))).unwrap();
    m
}

#[test]
fn ready_names_the_bot() {
    assert_eq!(MainEventHandler.ready("ilie"), "ilie is connected!");
    assert_eq!(MainEventHandler.ready(""), " is connected!");
}

#[test]
fn bot_entering_its_channel_is_greeted_once() {
    let m = bot_in_channel_x();
    let plan = MainEventHandler.voice_state_update(&m, HOME, BOT, None, Some(ChannelId(100)));
    assert_eq!(
        plan,
        Some(GreetingPlan {
            greeting: Greeting { tenant_id: HOME, channel_id: ChannelId(100) },
            delay_ms: 1000,
            volume_percent: 25,
        })
    );
    assert_eq!(GREETING_DELAY_MS, 1000);
    assert_eq!(GREETING_VOLUME_PERCENT, 25);
    assert_eq!(greeting_sound(), "Aloooo.mp3");
    let again = MainEventHandler.voice_state_update(
        &m,
        HOME,
        BOT,
        Some(ChannelId(100)),
        Some(ChannelId(100)),
    );
    assert_eq!(again, None);
}

#[test]
fn unrelated_voice_changes_are_not_greeted() {
    let m = bot_in_channel_x();
    let h = MainEventHandler;
    assert_eq!(h.voice_state_update(&m, HOME, BOT, None, Some(ChannelId(101))), None);
    assert_eq!(h.voice_state_update(&m, HOME, BOT, Some(ChannelId(100)), None), None);
    assert_eq!(h.voice_state_update(&m, HOME, MemberId(7), None, Some(ChannelId(100))), None);
    assert_eq!(h.voice_state_update(&m, TenantId(6), BOT, None, Some(ChannelId(100))), None);
    let nobody = VoiceManager::new(BOT);
    assert_eq!(h.voice_state_update(&nobody, HOME, BOT, None, Some(ChannelId(100))), None);
}

#[test]
fn greeting_plays_at_once() {
    let mut m = bot_in_channel_x();
    m.enqueue(HOME, TrackHandle(1)).unwrap();
    m.on_track_end(HOME, TrackHandle(1), ReactionId(1)).unwrap();
    let fx = greeting_resolved(&mut m, HOME, Ok(TrackHandle(9))).unwrap();
    assert_eq!(fx.started, Some(TrackHandle(9)));
    assert_eq!(fx.ended, vec![TrackEnd { track: TrackHandle(1), cause: EndCause::Stopped }]);
    assert_eq!(fx.calls.len(), 1);
    assert_eq!(m.session(HOME).unwrap().active_track(), Some(TrackHandle(9)));
}

#[test]
fn failed_greeting_is_swallowed() {
    let mut m = bot_in_channel_x();
    m.enqueue(HOME, TrackHandle(1)).unwrap();
    let failed = Err(ResolveError { detail: String::from("no ffmpeg") });
    assert_eq!(greeting_resolved(&mut m, HOME, failed), None);
    assert_eq!(m.session(HOME).unwrap().active_track(), Some(TrackHandle(1)));
    let mut nobody = VoiceManager::new(BOT);
    assert_eq!(greeting_resolved(&mut nobody, HOME, Ok(TrackHandle(9))), None);
    assert!(!nobody.is_connected(HOME));
}

#[test]
fn message_that_does_not_mention_the_bot_is_ignored() {
    assert_eq!(MainEventHandler.message(false, "tacusi"), MessageStep::Ignore);
    assert_eq!(MainEventHandler.message(false, "glumesc"), MessageStep::Ignore);
    assert_eq!(MainEventHandler.message(true, "salut"), MessageStep::Ignore);
    assert_eq!(MainEventHandler.message(true, ""), MessageStep::Ignore);
}

#[test]
fn message_can_mute_and_unmute() {
    let h = MainEventHandler;
    assert_eq!(h.message(true, "mai tacusi odata"), MessageStep::Mute(Reply::Muted));
    assert_eq!(h.message(true, "Tăcuși!"), MessageStep::Mute(Reply::Muted));
    assert_eq!(h.message(true, "TACUSI"), MessageStep::Mute(Reply::Muted));
    assert_eq!(h.message(true, "glumesc"), MessageStep::Unmute(Reply::Unmuted));
    assert_eq!(h.message(true, "hai ca GLUMESC"), MessageStep::Unmute(Reply::Unmuted));
    assert_eq!(h.message(true, "glumesc, tacusi"), MessageStep::Mute(Reply::Muted));
}

#[test]
fn message_reaction_reads_lowered_text() {
    assert_eq!(message_reaction(true, "tăcuși"), MessageStep::Mute(Reply::Muted));
    assert_eq!(message_reaction(true, "TACUSI"), MessageStep::Ignore);
    assert_eq!(message_reaction(true, "glumesc"), MessageStep::Unmute(Reply::Unmuted));
    assert_eq!(message_reaction(false, "glumesc"), MessageStep::Ignore);
}

#[test]
fn mute_and_unmute_tell_when_the_platform_has_to_act() {
    let mut m = bot_in_channel_x();
    assert_eq!(mute(&mut m, HOME), Some(ToggleStatus::Changed));
    assert!(m.session(HOME).unwrap().is_mute());
    assert_eq!(mute(&mut m, HOME), Some(ToggleStatus::AlreadyInState));
    assert_eq!(unmute(&mut m, HOME), Some(ToggleStatus::Changed));
    assert!(!m.session(HOME).unwrap().is_mute());
    assert_eq!(unmute(&mut m, HOME), Some(ToggleStatus::AlreadyInState));
    let mut nobody = VoiceManager::new(BOT);
    assert_eq!(mute(&mut nobody, HOME), None);
    assert_eq!(unmute(&mut nobody, HOME), None);
}

#[test]
fn bot_gone_from_voice_loses_its_session() {
    let mut m = bot_in_channel_x();
    m.enqueue(HOME, TrackHandle(1)).unwrap();
    m.on_track_end(HOME, TrackHandle(1), ReactionId(1)).unwrap();
    assert_eq!(departed(&mut m, HOME, MemberId(7), None), None);
    assert_eq!(departed(&mut m, HOME, BOT, Some(ChannelId(100))), None);
    assert_eq!(departed(&mut m, TenantId(6), BOT, None), None);
    assert!(m.is_connected(HOME));
    let fx = departed(&mut m, HOME, BOT, None).unwrap();
    assert_eq!(fx.ended, vec![TrackEnd { track: TrackHandle(1), cause: EndCause::Stopped }]);
    assert_eq!(fx.calls.len(), 1);
    assert!(!m.is_connected(HOME));
    assert_eq!(departed(&mut m, HOME, BOT, None), None);
}
