use serenity::framework::standard::{Args, Delimiter};
use voice_sessions::cache::app_cache::create_app_cache;
use voice_sessions::commands::answer::{Answer, ResolveRequest};
use voice_sessions::commands::essentials::{
    join, join_linked, leave, leave_unlinked, ping, JoinStep, LeaveStep,
};
use voice_sessions::commands::funny::{ba, toggle_steps, ToggleAction, ToggleStep};
use voice_sessions::commands::reply::Reply;
use voice_sessions::commands::sounds::{
    guarded, play, play_resolved, queue, queue_resolved, siren, siren_plan, siren_request,
    siren_option, siren_resolved, skip, sound, sound_request, sound_resolved, sound_source, sounds,
    sounds_request, spam, spam_plan, spam_request, spam_step, stop, url_request, SirenStep, SoundStep,
    SoundsStep, SpamStep, UrlStep,
};
use voice_sessions::errors::{
    ConnectError, ConnectionHandle, DisconnectError, ErrorKind, ResolveError,
};
use voice_sessions::ids::{ChannelId, MemberId, ReactionId, TenantId, TrackHandle};
use voice_sessions::manager::VoiceManager;
use voice_sessions::session::{EndCause, Phase, TrackEnd};

const GUILD: TenantId = TenantId(3);

fn command_args(text: &str) -> Args {
    Args::new(text, &[Delimiter::Single(' ')])
}

fn manager_in_channel() -> VoiceManager {
    let mut m = VoiceManager::new(MemberId(42));
    assert_eq!(
        join_linked(&mut m, GUILD, ChannelId(10), Ok(ConnectionHandle(0))),
        Reply::Joined(ChannelId(10))
    );
    m
}

fn failed_source() -> Result<TrackHandle, ResolveError> {
    Err(ResolveError { detail: String::from("ffmpeg") })
}

fn request(source: &str, lazy: bool) -> ResolveRequest {
    ResolveRequest { source: String::from(source), lazy }
}

#[test]
fn join_needs_the_author_in_a_voice_channel() {
    assert_eq!(join(None), JoinStep::Reply(Reply::NotInVoiceChannel));
    assert_eq!(join(Some(ChannelId(10))), JoinStep::Connect(ChannelId(10)));
}

#[test]
fn join_reports_success_and_failure() {
    let mut m = VoiceManager::new(MemberId(42));
    let link = Err(ConnectError { detail: String::from("refused") });
    assert_eq!(join_linked(&mut m, GUILD, ChannelId(10), link), Reply::JoinFailed);
    assert!(!m.is_connected(GUILD));
    assert_eq!(
        join_linked(&mut m, GUILD, ChannelId(10), Ok(ConnectionHandle(0))),
        Reply::Joined(ChannelId(10))
    );
    assert_eq!(m.current_channel(GUILD), Ok(Some(ChannelId(10))));
}

#[test]
fn leave_needs_a_session() {
    let m = VoiceManager::new(MemberId(42));
    assert_eq!(leave(&m, GUILD), LeaveStep::Reply(Reply::NotInVoiceChannel));
    let m = manager_in_channel();
    assert_eq!(leave(&m, GUILD), LeaveStep::Disconnect);
}

#[test]
fn leave_reports_success_and_failure() {
    let mut m = manager_in_channel();
    m.enqueue(GUILD, TrackHandle(1)).unwrap();
    let unlink = Err(DisconnectError { detail: String::from("busy") });
    assert_eq!(leave_unlinked(&mut m, GUILD, unlink), Answer::saying(Reply::LeaveFailed));
    assert!(m.is_connected(GUILD));
    let answer = leave_unlinked(&mut m, GUILD, Ok(()));
    assert_eq!(answer.reply, Some(Reply::LeftVoiceChannel));
    assert_eq!(
        answer.effects.unwrap().ended,
        vec![TrackEnd { track: TrackHandle(1), cause: EndCause::Stopped }]
    );
    assert!(!m.is_connected(GUILD));
    assert_eq!(leave_unlinked(&mut m, GUILD, Ok(())), Answer::saying(Reply::NotInVoiceChannel));
}

#[test]
fn ping_is_answered() {
    assert_eq!(ping(), Reply::Pong);
    assert_eq!(ping().say(), "Pong!");
}

#[test]
fn replies_read_as_text() {
    assert_eq!(Reply::NotInVoiceChannel.say(), "Not in a voice channel");
    assert_eq!(Reply::Joined(ChannelId(42)).say(), "Joined <#42>");
    assert_eq!(Reply::Joined(ChannelId(0)).say(), "Joined <#0>");
    assert_eq!(Reply::JoinFailed.say(), "Error joining the channel");
    assert_eq!(Reply::LeaveFailed.say(), "Failed: ");
    assert_eq!(Reply::LeftVoiceChannel.say(), "Left voice channel");
    assert_eq!(
        Reply::SoundNameRequired.say(),
        "Sound name required! Use the \"sounds\" command to get a list of all the sounds."
    );
    assert_eq!(Reply::Refused.say(), "uhhhh no");
    assert_eq!(Reply::SourceFailed.say(), "Error sourcing ffmpeg");
    assert_eq!(Reply::PageIndexRequired.say(), "Command requires a page index greater than 0.");
    assert_eq!(Reply::PageNotFound.say(), "Page not found");
    assert_eq!(Reply::NotAString.say(), "Not a string???");
    assert_eq!(Reply::NotEvenAString.say(), "Not even a string???😤😤😤");
    assert_eq!(Reply::SirenUsage.say(), "Usage: .siren <tense|taci> <repeat count>");
    assert_eq!(Reply::SirenUnknown.say(), "Stiu doar tense si taci");
    assert_eq!(Reply::UrlRequired.say(), "Must provide a URL to a video or audio");
    assert_eq!(Reply::UrlInvalid.say(), "Must provide a valid URL");
    assert_eq!(Reply::PlayingSong.say(), "Playing song");
    assert_eq!(Reply::NotInVoiceToPlay.say(), "Not in a voice channel to play in");
    assert_eq!(Reply::AddedToQueue(12).say(), "Added song to queue: position 12");
    assert_eq!(Reply::Skipped(0).say(), "Song skipped: 0 in queue.");
    assert_eq!(Reply::Skipped(305).say(), "Song skipped: 305 in queue.");
    assert_eq!(Reply::QueueCleared.say(), "Queue cleared.");
    assert_eq!(Reply::Muted.say(), "Gata 😔");
    assert_eq!(Reply::Unmuted.say(), "😊");
}

#[test]
fn some_replies_are_addressed_to_the_author() {
    assert!(Reply::NotInVoiceChannel.addressed());
    assert!(Reply::NotEvenAString.addressed());
    assert!(Reply::SirenUsage.addressed());
    assert!(Reply::SirenUnknown.addressed());
    assert!(!Reply::Pong.addressed());
    assert!(!Reply::Refused.addressed());
    assert!(!Reply::NotInVoiceToPlay.addressed());
}

#[test]
fn toggle_sequence_for_six_steps() {
    let c = ChannelId(10);
    let join = ToggleAction::Join(c);
    let leave = ToggleAction::Leave;
    assert_eq!(
        toggle_steps(c, 6),
        vec![
            ToggleStep { delay_ms: 0, action: join },
            ToggleStep { delay_ms: 500, action: leave },
            ToggleStep { delay_ms: 500, action: join },
            ToggleStep { delay_ms: 500, action: leave },
            ToggleStep { delay_ms: 500, action: join },
            ToggleStep { delay_ms: 500, action: leave },
            ToggleStep { delay_ms: 0, action: join },
        ]
    );
}

#[test]
fn toggle_sequence_always_ends_with_a_join() {
    let c = ChannelId(10);
    let last = ToggleStep { delay_ms: 0, action: ToggleAction::Join(c) };
    assert_eq!(toggle_steps(c, 0), vec![last]);
    assert_eq!(toggle_steps(c, -3), vec![last]);
    assert_eq!(toggle_steps(c, 1).len(), 2);
    for count in 1..50 {
        let steps = toggle_steps(c, count);
        assert_eq!(steps.len(), count as usize + 1);
        assert_eq!(steps[steps.len() - 1], last);
    }
}

#[test]
fn ba_reads_its_count_and_falls_back_to_six() {
    let c = ChannelId(10);
    assert_eq!(ba(None, command_args("3")), vec![]);
    assert_eq!(ba(Some(c), command_args("3")), toggle_steps(c, 3));
    assert_eq!(ba(Some(c), command_args("")), toggle_steps(c, 6));
    assert_eq!(ba(Some(c), command_args("abc")), toggle_steps(c, 6));
    assert_eq!(ba(Some(c), command_args("50")), toggle_steps(c, 6));
    assert_eq!(ba(Some(c), command_args("49")).len(), 50);
}

#[test]
fn names_that_reach_outside_are_guarded() {
    assert!(guarded("/etc/passwd"));
    assert!(guarded("\\share"));
    assert!(guarded("../x"));
    assert!(guarded(".hidden"));
    assert!(guarded("~root"));
    assert!(!guarded("bruh.mp3"));
    assert!(!guarded("a/b"));
    assert!(!guarded(""));
}

#[test]
fn sound_needs_a_safe_name() {
    assert_eq!(sound_request(None), SoundStep::Reply(Reply::SoundNameRequired));
    assert_eq!(sound_request(Some(String::from("/x"))), SoundStep::Reply(Reply::Refused));
    assert_eq!(sound_request(Some(String::from("~x"))), SoundStep::Reply(Reply::Refused));
    assert_eq!(
        sound_request(Some(String::from("bruh.mp3"))),
        SoundStep::Lookup { file: String::from("bruh.mp3") }
    );
}

#[test]
fn sound_reads_its_name_from_the_arguments() {
    assert_eq!(sound(command_args("")), SoundStep::Reply(Reply::SoundNameRequired));
    assert_eq!(sound(command_args("../x")), SoundStep::Reply(Reply::Refused));
    assert_eq!(
        sound(command_args("bruh.mp3 extra")),
        SoundStep::Lookup { file: String::from("bruh.mp3") }
    );
    assert_eq!(
        sound(command_args("\"two words.mp3\"")),
        SoundStep::Lookup { file: String::from("two words.mp3") }
    );
}

#[test]
fn sound_is_resolved_only_with_a_session() {
    let m = VoiceManager::new(MemberId(42));
    assert_eq!(sound_source(&m, GUILD, "sounds/bruh.mp3"), None);
    let m = manager_in_channel();
    assert_eq!(sound_source(&m, GUILD, "sounds/bruh.mp3"), Some(request("sounds/bruh.mp3", false)));
}

#[test]
fn resolved_sound_plays_at_once() {
    let mut m = manager_in_channel();
    m.enqueue(GUILD, TrackHandle(1)).unwrap();
    m.enqueue(GUILD, TrackHandle(2)).unwrap();
    let answer = sound_resolved(&mut m, GUILD, Ok(TrackHandle(3)));
    assert_eq!(answer.reply, None);
    let fx = answer.effects.unwrap();
    assert_eq!(fx.started, Some(TrackHandle(3)));
    assert_eq!(fx.ended, vec![TrackEnd { track: TrackHandle(1), cause: EndCause::Stopped }]);
    assert_eq!(m.session(GUILD).unwrap().active_track(), Some(TrackHandle(3)));
    assert_eq!(m.session(GUILD).unwrap().queue().len(), 1);
}

#[test]
fn failed_sound_is_reported_and_changes_nothing() {
    let mut m = manager_in_channel();
    m.enqueue(GUILD, TrackHandle(1)).unwrap();
    assert_eq!(sound_resolved(&mut m, GUILD, failed_source()), Answer::saying(Reply::SourceFailed));
    assert_eq!(m.session(GUILD).unwrap().active_track(), Some(TrackHandle(1)));
    let mut gone = VoiceManager::new(MemberId(42));
    assert_eq!(sound_resolved(&mut gone, GUILD, Ok(TrackHandle(3))), Answer::silent());
}

#[test]
fn play_needs_a_session_then_an_address() {
    let m = manager_in_channel();
    assert_eq!(url_request(&m, GUILD, None, false), UrlStep::Reply(Reply::UrlRequired));
    assert_eq!(
        url_request(&m, GUILD, Some(String::from("ftp://x")), false),
        UrlStep::Reply(Reply::UrlInvalid)
    );
    assert_eq!(
        url_request(&m, GUILD, Some(String::from("song.mp3")), true),
        UrlStep::Reply(Reply::UrlInvalid)
    );
    assert_eq!(
        url_request(&m, GUILD, Some(String::from("https://x/y")), false),
        UrlStep::Resolve(request("https://x/y", false))
    );
    assert_eq!(
        url_request(&m, GUILD, Some(String::from("https://x/y")), true),
        UrlStep::Resolve(request("https://x/y", true))
    );
}

#[test]
fn a_guild_without_session_is_told_so_whatever_it_asks_for() {
    let nobody = VoiceManager::new(MemberId(42));
    assert_eq!(
        url_request(&nobody, GUILD, Some(String::from("https://x/y")), false),
        UrlStep::Reply(Reply::NotInVoiceToPlay)
    );
    assert_eq!(
        url_request(&nobody, GUILD, Some(String::from("song.mp3")), true),
        UrlStep::Reply(Reply::NotInVoiceToPlay)
    );
    assert_eq!(
        url_request(&nobody, GUILD, Some(String::from("x")), false),
        UrlStep::Reply(Reply::NotInVoiceToPlay)
    );
    assert_eq!(url_request(&nobody, GUILD, None, false), UrlStep::Reply(Reply::NotInVoiceToPlay));
    assert_eq!(Reply::NotInVoiceToPlay.failure(), Some(ErrorKind::NotConnected));
    let other = manager_in_channel();
    assert_eq!(
        url_request(&other, TenantId(4), Some(String::from("https://x/y")), true),
        UrlStep::Reply(Reply::NotInVoiceToPlay)
    );
}

#[test]
fn play_and_queue_read_the_address_from_the_arguments() {
    let m = manager_in_channel();
    assert_eq!(play(&m, GUILD, command_args("")), UrlStep::Reply(Reply::UrlRequired));
    assert_eq!(play(&m, GUILD, command_args("song.mp3")), UrlStep::Reply(Reply::UrlInvalid));
    assert_eq!(
        play(&m, GUILD, command_args("http://a.b/c")),
        UrlStep::Resolve(request("http://a.b/c", false))
    );
    assert_eq!(
        queue(&m, GUILD, command_args("http://a.b/c")),
        UrlStep::Resolve(request("http://a.b/c", true))
    );
    assert_eq!(queue(&m, GUILD, command_args("")), UrlStep::Reply(Reply::UrlRequired));
}

#[test]
fn queue_without_session_is_told_so_and_makes_none() {
    let mut m = VoiceManager::new(MemberId(42));
    let step = queue(&m, GUILD, command_args("song.mp3"));
    assert_eq!(step, UrlStep::Reply(Reply::NotInVoiceToPlay));
    assert_eq!(Reply::NotInVoiceToPlay.failure(), Some(ErrorKind::NotConnected));
    assert!(ErrorKind::NotConnected.benign());
    assert_eq!(play(&m, GUILD, command_args("song.mp3")), UrlStep::Reply(Reply::NotInVoiceToPlay));
    assert_eq!(
        queue(&m, GUILD, command_args("http://a.b/song.mp3")),
        UrlStep::Reply(Reply::NotInVoiceToPlay)
    );
    assert_eq!(queue(&m, GUILD, command_args("")), UrlStep::Reply(Reply::NotInVoiceToPlay));
    assert_eq!(
        queue_resolved(&mut m, GUILD, Ok(TrackHandle(1))),
        Answer::saying(Reply::NotInVoiceToPlay)
    );
    assert!(!m.is_connected(GUILD));
    assert_eq!(m.registry().len(), 0);
}

#[test]
fn queued_tracks_report_their_place() {
    let mut m = manager_in_channel();
    let first = queue_resolved(&mut m, GUILD, Ok(TrackHandle(1)));
    assert_eq!(first.reply, Some(Reply::AddedToQueue(1)));
    assert_eq!(first.effects.unwrap().started, Some(TrackHandle(1)));
    let second = queue_resolved(&mut m, GUILD, Ok(TrackHandle(2)));
    assert_eq!(second.reply, Some(Reply::AddedToQueue(2)));
    let fx = second.effects.unwrap();
    assert_eq!(fx.started, None);
    assert_eq!(fx.remaining_count, 1);
    let third = play_resolved(&mut m, GUILD, Ok(TrackHandle(3)));
    assert_eq!(third.reply, Some(Reply::PlayingSong));
    assert_eq!(third.effects.unwrap().remaining_count, 2);
    assert_eq!(m.session(GUILD).unwrap().active_track(), Some(TrackHandle(1)));
}

#[test]
fn failed_media_leaves_the_queue_as_it_was() {
    let mut m = manager_in_channel();
    queue_resolved(&mut m, GUILD, Ok(TrackHandle(1)));
    queue_resolved(&mut m, GUILD, Ok(TrackHandle(2)));
    assert_eq!(queue_resolved(&mut m, GUILD, failed_source()), Answer::saying(Reply::SourceFailed));
    assert_eq!(play_resolved(&mut m, GUILD, failed_source()), Answer::saying(Reply::SourceFailed));
    assert_eq!(m.session(GUILD).unwrap().queue().len(), 1);
    assert_eq!(
        queue_resolved(&mut m, GUILD, Ok(TrackHandle(3))).reply,
        Some(Reply::AddedToQueue(3))
    );
}

#[test]
fn skip_tells_what_remains() {
    let mut m = VoiceManager::new(MemberId(42));
    assert_eq!(skip(&mut m, GUILD), Answer::saying(Reply::NotInVoiceToPlay));
    let mut m = manager_in_channel();
    for id in 1..=3u64 {
        queue_resolved(&mut m, GUILD, Ok(TrackHandle(id)));
    }
    m.on_track_end(GUILD, TrackHandle(1), ReactionId(1)).unwrap();
    let answer = skip(&mut m, GUILD);
    assert_eq!(answer.reply, Some(Reply::Skipped(1)));
    let fx = answer.effects.unwrap();
    assert_eq!(fx.started, Some(TrackHandle(2)));
    assert_eq!(fx.calls.len(), 1);
    assert_eq!(skip(&mut m, GUILD).reply, Some(Reply::Skipped(0)));
    assert_eq!(skip(&mut m, GUILD).reply, Some(Reply::Skipped(0)));
    assert_eq!(m.session(GUILD).unwrap().phase(), Phase::Idle);
}

#[test]
fn stop_clears_the_queue() {
    let mut m = VoiceManager::new(MemberId(42));
    assert_eq!(stop(&mut m, GUILD), Answer::saying(Reply::NotInVoiceToPlay));
    let mut m = manager_in_channel();
    for id in 1..=3u64 {
        queue_resolved(&mut m, GUILD, Ok(TrackHandle(id)));
    }
    let answer = stop(&mut m, GUILD);
    assert_eq!(answer.reply, Some(Reply::QueueCleared));
    assert_eq!(answer.effects.unwrap().ended.len(), 3);
    assert_eq!(m.session(GUILD).unwrap().phase(), Phase::Idle);
    assert!(m.is_connected(GUILD));
    assert_eq!(stop(&mut m, GUILD).effects.unwrap().ended, vec![]);
}

#[test]
fn sounds_lists_a_page() {
    let listing: Vec<String> = (0..30).map(|i| format!("s{}.mp3", i)).collect();
    let cache = create_app_cache(Some(listing));
    assert_eq!(sounds_request(None, Some(&cache)), SoundsStep::Reply(Reply::PageIndexRequired));
    assert_eq!(sounds_request(Some(0), Some(&cache)), SoundsStep::Reply(Reply::PageIndexRequired));
    assert_eq!(sounds_request(Some(3), Some(&cache)), SoundsStep::Reply(Reply::PageNotFound));
    assert_eq!(sounds_request(Some(1), None), SoundsStep::Silent);
    assert_eq!(sounds_request(Some(0), None), SoundsStep::Reply(Reply::PageIndexRequired));
    assert_eq!(
        sounds_request(Some(2), Some(&cache)),
        SoundsStep::Page {
            title: String::from("2"),
            text: String::from("s25.mp3\ns26.mp3\ns27.mp3\ns28.mp3\ns29.mp3"),
        }
    );
    match sounds_request(Some(1), Some(&cache)) {
        SoundsStep::Page { title, text } => {
            assert_eq!(title, "1");
            assert_eq!(text.lines().count(), 25);
            assert!(text.starts_with("s0.mp3\ns1.mp3\n"));
        }
        other => panic!("unexpected step {:?}", other),
    }
}

#[test]
fn sounds_reads_the_page_from_the_arguments() {
    let cache = create_app_cache(Some(vec![String::from("a.mp3"), String::from("b.mp3")]));
    assert_eq!(sounds(command_args(""), Some(&cache)), SoundsStep::Reply(Reply::PageIndexRequired));
    assert_eq!(
        sounds(command_args("x"), Some(&cache)),
        SoundsStep::Reply(Reply::PageIndexRequired)
    );
    assert_eq!(
        sounds(command_args("-1"), Some(&cache)),
        SoundsStep::Reply(Reply::PageIndexRequired)
    );
    assert_eq!(sounds(command_args("2"), Some(&cache)), SoundsStep::Reply(Reply::PageNotFound));
    assert_eq!(
        sounds(command_args("1"), Some(&cache)),
        SoundsStep::Page { title: String::from("1"), text: String::from("a.mp3\nb.mp3") }
    );
}

#[test]
fn spam_needs_a_safe_name_and_clamps_its_count() {
    assert_eq!(spam_request(None, Some(3)), SpamStep::Reply(Reply::NotAString));
    assert_eq!(spam_request(Some(String::from(".x")), Some(3)), SpamStep::Reply(Reply::Refused));
    assert_eq!(
        spam_request(Some(String::from("x.mp3")), Some(3)),
        SpamStep::Lookup { file: String::from("x.mp3"), repeat_count: 3 }
    );
    assert_eq!(
        spam_request(Some(String::from("x.mp3")), None),
        SpamStep::Lookup { file: String::from("x.mp3"), repeat_count: 10 }
    );
    assert_eq!(
        spam_request(Some(String::from("x.mp3")), Some(50)),
        SpamStep::Lookup { file: String::from("x.mp3"), repeat_count: 10 }
    );
}

#[test]
fn spam_reads_name_and_count_from_the_arguments() {
    assert_eq!(spam(command_args("")), SpamStep::Reply(Reply::NotAString));
    assert_eq!(spam(command_args("/x 3")), SpamStep::Reply(Reply::Refused));
    assert_eq!(
        spam(command_args("x.mp3 3")),
        SpamStep::Lookup { file: String::from("x.mp3"), repeat_count: 3 }
    );
    assert_eq!(
        spam(command_args("x.mp3")),
        SpamStep::Lookup { file: String::from("x.mp3"), repeat_count: 10 }
    );
    assert_eq!(
        spam(command_args("x.mp3 0")),
        SpamStep::Lookup { file: String::from("x.mp3"), repeat_count: 10 }
    );
    assert_eq!(
        spam(command_args("\"a b.mp3\" 49")),
        SpamStep::Lookup { file: String::from("a b.mp3"), repeat_count: 49 }
    );
}

#[test]
fn spam_plan_rests_by_chance_within_bounds() {
    let m = manager_in_channel();
    let plan = spam_plan(&m, GUILD, "sounds/x.mp3", 40);
    assert_eq!(plan.len(), 40);
    let mut distinct = std::collections::BTreeSet::new();
    for step in plan.iter() {
        assert!(25 <= step.delay_ms && step.delay_ms < 125);
        assert_eq!(step.request, request("sounds/x.mp3", false));
        distinct.insert(step.delay_ms);
    }
    assert!(distinct.len() > 1);
    assert_eq!(spam_plan(&m, GUILD, "sounds/x.mp3", 0).len(), 0);
    assert_eq!(spam_plan(&m, GUILD, "sounds/x.mp3", -5).len(), 0);
    let nobody = VoiceManager::new(MemberId(42));
    assert_eq!(spam_plan(&nobody, GUILD, "sounds/x.mp3", 10).len(), 0);
}

#[test]
fn siren_knows_two_options() {
    assert_eq!(siren_request(None, None), SirenStep::Reply(Reply::NotEvenAString));
    assert_eq!(
        siren_request(Some(String::from("ta1ci")), None),
        SirenStep::Reply(Reply::SirenUsage)
    );
    assert_eq!(siren_request(Some(String::from("5")), None), SirenStep::Reply(Reply::SirenUsage));
    assert_eq!(
        siren_request(Some(String::from("loud")), None),
        SirenStep::Reply(Reply::SirenUnknown)
    );
    assert_eq!(siren_request(Some(String::from("")), None), SirenStep::Reply(Reply::SirenUnknown));
    assert_eq!(
        siren_request(Some(String::from("Taci")), None),
        SirenStep::Reply(Reply::SirenUnknown)
    );
    assert_eq!(
        siren_request(Some(String::from("taci")), None),
        SirenStep::Lookup {
            left: String::from("tacil.ogg"),
            right: String::from("tacir.ogg"),
            repeat_count: 10,
        }
    );
    assert_eq!(
        siren_request(Some(String::from("tense")), Some(4)),
        SirenStep::Lookup {
            left: String::from("tensel.ogg"),
            right: String::from("tenser.ogg"),
            repeat_count: 4,
        }
    );
}

#[test]
fn siren_reads_option_and_count_from_the_arguments() {
    assert_eq!(siren(command_args("")), SirenStep::Reply(Reply::NotEvenAString));
    assert_eq!(siren(command_args("12")), SirenStep::Reply(Reply::SirenUsage));
    assert_eq!(siren(command_args("nope 3")), SirenStep::Reply(Reply::SirenUnknown));
    assert_eq!(
        siren(command_args("tense 3")),
        SirenStep::Lookup {
            left: String::from("tensel.ogg"),
            right: String::from("tenser.ogg"),
            repeat_count: 3,
        }
    );
    assert_eq!(
        siren(command_args("taci 77")),
        SirenStep::Lookup {
            left: String::from("tacil.ogg"),
            right: String::from("tacir.ogg"),
            repeat_count: 10,
        }
    );
}

#[test]
fn siren_plan_takes_left_and_right_in_turns() {
    let m = manager_in_channel();
    assert_eq!(
        siren_plan(&m, GUILD, "sounds/l.ogg", "sounds/r.ogg", 5),
        vec![
            request("sounds/l.ogg", false),
            request("sounds/r.ogg", false),
            request("sounds/l.ogg", false),
            request("sounds/r.ogg", false),
            request("sounds/l.ogg", false),
        ]
    );
    assert_eq!(siren_plan(&m, GUILD, "l", "r", 0), vec![]);
    let nobody = VoiceManager::new(MemberId(42));
    assert_eq!(siren_plan(&nobody, GUILD, "l", "r", 5), vec![]);
}

#[test]
fn siren_clips_go_into_the_queue() {
    let mut m = manager_in_channel();
    let first = siren_resolved(&mut m, GUILD, Ok(TrackHandle(1)));
    assert_eq!(first.reply, None);
    assert_eq!(first.effects.unwrap().started, Some(TrackHandle(1)));
    let second = siren_resolved(&mut m, GUILD, Ok(TrackHandle(2)));
    assert_eq!(second.reply, None);
    assert_eq!(second.effects.unwrap().started, None);
    assert_eq!(siren_resolved(&mut m, GUILD, failed_source()), Answer::saying(Reply::SourceFailed));
    assert_eq!(m.session(GUILD).unwrap().queue().len(), 1);
    let mut nobody = VoiceManager::new(MemberId(42));
    assert_eq!(siren_resolved(&mut nobody, GUILD, Ok(TrackHandle(1))), Answer::silent());
}

#[test]
fn siren_option_goes_by_the_numeral_test_it_is_given() {
    assert_eq!(siren_option("taci", true, None), SirenStep::Reply(Reply::SirenUsage));
    assert_eq!(siren_option("x", false, None), SirenStep::Reply(Reply::SirenUnknown));
    assert_eq!(
        siren_option("tense", false, Some(49)),
        SirenStep::Lookup {
            left: String::from("tensel.ogg"),
            right: String::from("tenser.ogg"),
            repeat_count: 49,
        }
    );
}

#[test]
fn spam_step_keeps_path_and_rest() {
    let step = spam_step("sounds/x.mp3", 77);
    assert_eq!(step.delay_ms, 77);
    assert_eq!(step.request, request("sounds/x.mp3", false));
}

#[test]
fn replies_tell_the_kind_of_failure() {
    assert_eq!(Reply::NotInVoiceChannel.failure(), Some(ErrorKind::NotConnected));
    assert_eq!(Reply::NotInVoiceToPlay.failure(), Some(ErrorKind::NotConnected));
    assert_eq!(Reply::JoinFailed.failure(), Some(ErrorKind::ConnectionFailed));
    assert_eq!(Reply::LeaveFailed.failure(), Some(ErrorKind::DisconnectFailed));
    assert_eq!(Reply::SourceFailed.failure(), Some(ErrorKind::ResolveError));
    assert_eq!(Reply::Pong.failure(), None);
    assert_eq!(Reply::QueueCleared.failure(), None);
    assert_eq!(Reply::Skipped(3).failure(), None);
}

#[test]
fn collaborator_failures_become_kinds() {
    assert_eq!(ConnectError { detail: String::from("a") }.kind(), ErrorKind::ConnectionFailed);
    assert_eq!(DisconnectError { detail: String::from("b") }.kind(), ErrorKind::DisconnectFailed);
    assert_eq!(ResolveError { detail: String::from("c") }.kind(), ErrorKind::ResolveError);
}

#[test]
fn a_sequence_goes_on_only_after_a_clip_that_was_taken_in() {
    let mut m = manager_in_channel();
    assert!(siren_resolved(&mut m, GUILD, Ok(TrackHandle(1))).goes_on());
    assert!(!siren_resolved(&mut m, GUILD, failed_source()).goes_on());
    assert!(sound_resolved(&mut m, GUILD, Ok(TrackHandle(2))).goes_on());
    assert!(!sound_resolved(&mut m, GUILD, failed_source()).goes_on());
    assert!(!Answer::saying(Reply::SourceFailed).goes_on());
    assert!(!Answer::silent().goes_on());
    let mut nobody = VoiceManager::new(MemberId(42));
    assert!(!siren_resolved(&mut nobody, GUILD, Ok(TrackHandle(1))).goes_on());
}

#[test]
fn a_siren_ends_at_its_first_failed_clip() {
    let mut m = manager_in_channel();
    queue_resolved(&mut m, GUILD, Ok(TrackHandle(100)));
    queue_resolved(&mut m, GUILD, Ok(TrackHandle(101)));
    let plan = siren_plan(&m, GUILD, "sounds/l.ogg", "sounds/r.ogg", 6);
    let fails_at = 3;
    let mut enqueued = 0u64;
    let mut said = Vec::new();
    for (i, _request) in plan.iter().enumerate() {
        let resolved = if i == fails_at { failed_source() } else { Ok(TrackHandle(i as u64)) };
        let answer = siren_resolved(&mut m, GUILD, resolved);
        if let Some(reply) = answer.reply {
            said.push(reply);
        }
        if !answer.goes_on() {
            break;
        }
        enqueued += 1;
    }
    assert_eq!(enqueued, 3);
    assert_eq!(said, vec![Reply::SourceFailed]);
    let s = m.session(GUILD).unwrap();
    assert_eq!(s.active_track(), Some(TrackHandle(100)));
    let waiting: Vec<TrackHandle> = (0..s.queue().len()).map(|i| s.queue().get(i).unwrap()).collect();
    assert_eq!(
        waiting,
        vec![TrackHandle(101), TrackHandle(0), TrackHandle(1), TrackHandle(2)]
    );
}

#[test]
fn queue_after_n_calls_plays_in_call_order() {
    let mut m = manager_in_channel();
    for n in 1..=20u64 {
        let answer = queue_resolved(&mut m, GUILD, Ok(TrackHandle(n * 7)));
        assert_eq!(answer.reply, Some(Reply::AddedToQueue(n as usize)));
        assert_eq!(answer.effects.unwrap().remaining_count, n as usize - 1);
    }
    let s = m.session(GUILD).unwrap();
    assert_eq!(s.active_track(), Some(TrackHandle(7)));
    for i in 0..19usize {
        assert_eq!(s.queue().get(i), Some(TrackHandle((i as u64 + 2) * 7)));
    }
    assert_eq!(s.queue().len(), 19);
}

#[test]
fn second_argument_is_read_after_the_first() {
    assert_eq!(
        spam(command_args("\"a b.mp3\" \"7\"")),
        SpamStep::Lookup { file: String::from("a b.mp3"), repeat_count: 7 }
    );
    assert_eq!(
        siren(command_args("tense abc")),
        SirenStep::Lookup {
            left: String::from("tensel.ogg"),
            right: String::from("tenser.ogg"),
            repeat_count: 10,
        }
    );
    assert_eq!(
        spam(command_args("5 6")),
        SpamStep::Lookup { file: String::from("5"), repeat_count: 6 }
    );
}
