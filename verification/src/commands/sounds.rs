//! Playing clips and remote media, queueing, skipping, stopping, and the
//! listing of the sound files.
use vstd::prelude::*;
use vstd::string::StringExecFns;
use serenity::framework::standard::Args;
use crate::cache::app_cache::AppCache;
use crate::commands::answer::{Answer, ResolveRequest};
use crate::commands::reply::Reply;
use crate::errors::{ErrorKind, ResolveError};
use crate::ids::{TenantId, TrackHandle};
use crate::manager::{Effects, VoiceManager, session_of};
use crate::session::SessionState;
use crate::utils::arguments::{
    count_after_quoted_text,
    count_after_text,
    next_quoted_text,
    next_text,
    next_usize,
    single_i32,
    single_quoted_string,
    single_string,
    single_usize,
    text_of,
};
use crate::utils::parse::{CLIP_REPEATS, clamp_repeat_count, repeat_count};
use crate::utils::random::random_below;
use crate::utils::text::{
    chars_of,
    decimal,
    decimal_text,
    first_char,
    has_prefix,
    is_numeric,
    join,
    joined,
    numeric,
    same_text,
    starts_with,
};

verus! {

/// The commands that play: `play`, `queue`, `skip`, `stop`, `sound`,
/// `sounds`, `spam`, `siren`.
pub struct Sounds;

/// The shortest rest before a repeated clip, in milliseconds.
pub const SPAM_PAUSE_MIN_MS: u64 = 25;

/// The bound that the rest before a repeated clip stays under, in
/// milliseconds.
pub const SPAM_PAUSE_END_MS: u64 = 125;

/// Whether a name of a sound reaches outside the sound directory: it
/// begins with a slash, a backslash, a dot or a tilde.
pub open spec fn is_guarded(file: Seq<char>) -> bool {
    file.len() > 0 && (file[0] == '/' || file[0] == '\\' || file[0] == '.' || file[0] == '~')
}

/// Whether a name of a sound reaches outside the sound directory.
pub fn guarded(file: &str) -> (b: bool)
    ensures
        b == is_guarded(file@),
{
    match first_char(file) {
        Some(c) => c == '/' || c == '\\' || c == '.' || c == '~',
        None => false,
    }
}

/// What the first half of `sound` asks for.
#[derive(Debug, PartialEq, Eq)]
pub enum SoundStep {
    /// Say this; nothing is played.
    Reply(Reply),
    /// Find out whether the file of this sound exists, and go on with
    /// `get_sound_path` and `sound_source`.
    Lookup { file: String },
}

/// How `sound` decides: a name is needed, and a name that reaches outside
/// the sound directory is refused.
pub open spec fn sound_decides(file: Option<Seq<char>>, step: SoundStep) -> bool {
    match file {
        None => step == SoundStep::Reply(Reply::SoundNameRequired),
        Some(name) => if is_guarded(name) {
            step == SoundStep::Reply(Reply::Refused)
        } else {
            step is Lookup && step->Lookup_file@ == name
        },
    }
}

/// The command to play one sound at once, for the name `file` that was
/// read from the arguments, or for its absence.
pub fn sound_request(file: Option<String>) -> (step: SoundStep)
    ensures
        sound_decides(text_of(file), step),
{
    match file {
        None => SoundStep::Reply(Reply::SoundNameRequired),
        Some(name) => {
            if guarded(name.as_str()) {
                SoundStep::Reply(Reply::Refused)
            } else {
                SoundStep::Lookup { file: name }
            }
        },
    }
}

/// The command to play one sound at once, first half: reads the name of
/// the sound from `args`.
pub fn sound(args: Args) -> (step: SoundStep)
    ensures
        sound_decides(next_quoted_text(args), step),
{
    let mut args = args;
    let file = single_quoted_string(&mut args);
    sound_request(file)
}

/// What to ask of the resolver to play the file at `path` at once for
/// `tenant_id`: nothing where the guild has no session.
pub fn sound_source(manager: &VoiceManager, tenant_id: TenantId, path: &str) -> (request: Option<
    ResolveRequest,
>)
    requires
        manager.wf(),
    ensures
        request is Some <==> manager.sessions().contains_key(tenant_id),
        request matches Some(r) ==> r.source@ == path@ && !r.lazy,
{
    if manager.is_connected(tenant_id) {
        Some(ResolveRequest { source: String::from_str(path), lazy: false })
    } else {
        None
    }
}

/// The report of `play_now` as an answer without words.
pub open spec fn effects_as_result(effects: Option<Effects>) -> Result<Effects, ErrorKind> {
    match effects {
        Some(fx) => Ok(fx),
        None => Err(ErrorKind::NotConnected),
    }
}

/// The command to play one sound at once, second half: `resolved` is what
/// the resolver made of the request. A sound that could not be produced is
/// reported and changes nothing; a track interrupts what plays and starts
/// at once; where the session is gone meanwhile, nothing happens.
pub fn sound_resolved(
    manager: &mut VoiceManager,
    tenant_id: TenantId,
    resolved: Result<TrackHandle, ResolveError>,
) -> (answer: Answer)
    requires
        old(manager).wf(),
    ensures
        final(manager).wf(),
        final(manager).self_member() == old(manager).self_member(),
        resolved is Err ==> answer.reply == Some(Reply::SourceFailed) && answer.effects is None
            && final(manager).sessions() == old(manager).sessions() && final(manager).pending()
            == old(manager).pending(),
        resolved matches Ok(track) ==> answer.reply is None && VoiceManager::played_now(
            old(manager),
            final(manager),
            tenant_id,
            track,
            effects_as_result(answer.effects),
        ),
{
    match resolved {
        Err(_) => Answer::saying(Reply::SourceFailed),
        Ok(track) => match manager.play_now(tenant_id, track) {
            Ok(effects) => Answer { reply: None, effects: Some(effects) },
            Err(_) => Answer::silent(),
        },
    }
}

/// What the first half of `play` and of `queue` asks for.
#[derive(Debug, PartialEq, Eq)]
pub enum UrlStep {
    /// Say this; nothing is played.
    Reply(Reply),
    /// Have the resolver produce this, then go on with the second half.
    Resolve(ResolveRequest),
}

/// How `play` and `queue` decide: a guild without a session is told so,
/// whatever it asked for; then an address is needed, and it has to begin
/// with `http`; then the media behind the address is asked for, lazily
/// where `lazy` is set.
pub open spec fn url_decides(connected: bool, url: Option<Seq<char>>, lazy: bool, step: UrlStep) -> bool {
    if !connected {
        step == UrlStep::Reply(Reply::NotInVoiceToPlay)
    } else {
        match url {
            None => step == UrlStep::Reply(Reply::UrlRequired),
            Some(address) => if !has_prefix(address, "http"@) {
                step == UrlStep::Reply(Reply::UrlInvalid)
            } else {
                step is Resolve && step->Resolve_0.source@ == address && step->Resolve_0.lazy
                    == lazy
            },
        }
    }
}

/// The first half of `play` and of `queue`, for the address `url` that was
/// read from the arguments, or for its absence.
pub fn url_request(manager: &VoiceManager, tenant_id: TenantId, url: Option<String>, lazy: bool) -> (step:
    UrlStep)
    requires
        manager.wf(),
    ensures
        url_decides(manager.sessions().contains_key(tenant_id), text_of(url), lazy, step),
{
    if !manager.is_connected(tenant_id) {
        return UrlStep::Reply(Reply::NotInVoiceToPlay);
    }
    match url {
        None => UrlStep::Reply(Reply::UrlRequired),
        Some(address) => {
            if !starts_with(address.as_str(), "http") {
                UrlStep::Reply(Reply::UrlInvalid)
            } else {
                UrlStep::Resolve(ResolveRequest { source: address, lazy })
            }
        },
    }
}

/// The command to play remote media, first half: reads the address from
/// `args`. The media is decoded at once.
pub fn play(manager: &VoiceManager, tenant_id: TenantId, args: Args) -> (step: UrlStep)
    requires
        manager.wf(),
    ensures
        url_decides(manager.sessions().contains_key(tenant_id), next_text(args), false, step),
{
    let mut args = args;
    let url = single_string(&mut args);
    url_request(manager, tenant_id, url, false)
}

/// The command to queue remote media, first half: reads the address from
/// `args`. The media is decoded only when its turn comes, so that nothing
/// is paid for a track that is skipped before it plays.
pub fn queue(manager: &VoiceManager, tenant_id: TenantId, args: Args) -> (step: UrlStep)
    requires
        manager.wf(),
    ensures
        url_decides(manager.sessions().contains_key(tenant_id), next_text(args), true, step),
{
    let mut args = args;
    let url = single_string(&mut args);
    url_request(manager, tenant_id, url, true)
}

/// What the second half of `play`, `queue` and `siren` does for a track
/// `track`. For a guild with a session in a channel the track is enqueued:
/// it has to start now exactly where nothing played, no track ends, no
/// reaction is called, and as many tracks wait afterwards as the session
/// held before. For any other guild nothing is done and nothing changes.
pub open spec fn enqueue_effects(
    before: &VoiceManager,
    after: &VoiceManager,
    tenant_id: TenantId,
    track: TrackHandle,
    effects: Option<Effects>,
) -> bool {
    match session_of(before.sessions(), tenant_id) {
        Some(s) if s.is_connected() => {
            &&& effects is Some
            &&& after.sessions() == before.sessions().insert(tenant_id, s.enqueue(track))
            &&& effects->0.remaining_count == s.play_order().len()
            &&& effects->0.ended@.len() == 0
            &&& effects->0.calls@.len() == 0
            &&& effects->0.started == (if s.active_track is None {
                Some(track)
            } else {
                None
            })
        },
        _ => effects is None && after.sessions() == before.sessions(),
    }
}

/// Enqueues `track` for `tenant_id` and says what has to happen.
fn enqueue_track(manager: &mut VoiceManager, tenant_id: TenantId, track: TrackHandle) -> (effects:
    Option<Effects>)
    requires
        old(manager).wf(),
        old(manager).has_room(tenant_id),
    ensures
        final(manager).wf(),
        final(manager).self_member() == old(manager).self_member(),
        final(manager).pending() == old(manager).pending(),
        enqueue_effects(old(manager), final(manager), tenant_id, track, effects),
        effects matches Some(fx) ==> fx.remaining_count < usize::MAX,
{
    proof {
        if manager.sessions().contains_key(tenant_id) {
            manager.lemma_sessions_wf(tenant_id);
        }
    }
    match manager.enqueue(tenant_id, track) {
        Ok(position) => {
            let started = if position == 1 {
                Some(track)
            } else {
                None
            };
            Some(
                Effects {
                    ended: Vec::new(),
                    started,
                    calls: Vec::new(),
                    remaining_count: position - 1,
                },
            )
        },
        Err(_) => None,
    }
}

/// The command to play remote media, second half: `resolved` is what the
/// resolver made of the request. Media that could not be produced is
/// reported and leaves the queue as it was; a track goes behind every
/// track of the session, and starts at once where nothing plays; a guild
/// whose session is gone meanwhile is told so.
pub fn play_resolved(
    manager: &mut VoiceManager,
    tenant_id: TenantId,
    resolved: Result<TrackHandle, ResolveError>,
) -> (answer: Answer)
    requires
        old(manager).wf(),
        old(manager).has_room(tenant_id),
    ensures
        final(manager).wf(),
        final(manager).self_member() == old(manager).self_member(),
        final(manager).pending() == old(manager).pending(),
        resolved is Err ==> answer.reply == Some(Reply::SourceFailed) && answer.effects is None
            && final(manager).sessions() == old(manager).sessions(),
        resolved matches Ok(track) ==> enqueue_effects(
            old(manager),
            final(manager),
            tenant_id,
            track,
            answer.effects,
        ),
        resolved is Ok ==> answer.reply == Some(
            if answer.effects is Some {
                Reply::PlayingSong
            } else {
                Reply::NotInVoiceToPlay
            },
        ),
{
    match resolved {
        Err(_) => Answer::saying(Reply::SourceFailed),
        Ok(track) => match enqueue_track(manager, tenant_id, track) {
            Some(effects) => Answer { reply: Some(Reply::PlayingSong), effects: Some(effects) },
            None => Answer::saying(Reply::NotInVoiceToPlay),
        },
    }
}

/// The command to queue remote media, second half: as `play_resolved`, and
/// the answer tells the place that the track got in the play order,
/// counted from 1: one more than the number of tracks that wait behind the
/// playing one afterwards.
pub fn queue_resolved(
    manager: &mut VoiceManager,
    tenant_id: TenantId,
    resolved: Result<TrackHandle, ResolveError>,
) -> (answer: Answer)
    requires
        old(manager).wf(),
        old(manager).has_room(tenant_id),
    ensures
        final(manager).wf(),
        final(manager).self_member() == old(manager).self_member(),
        final(manager).pending() == old(manager).pending(),
        resolved is Err ==> answer.reply == Some(Reply::SourceFailed) && answer.effects is None
            && final(manager).sessions() == old(manager).sessions(),
        resolved matches Ok(track) ==> enqueue_effects(
            old(manager),
            final(manager),
            tenant_id,
            track,
            answer.effects,
        ),
        resolved is Ok && answer.effects is None ==> answer.reply == Some(
            Reply::NotInVoiceToPlay,
        ),
        resolved is Ok && answer.effects is Some ==> answer.reply is Some && answer.reply->0
            is AddedToQueue && answer.reply->0->AddedToQueue_0
            == answer.effects->0.remaining_count + 1,
{
    match resolved {
        Err(_) => Answer::saying(Reply::SourceFailed),
        Ok(track) => match enqueue_track(manager, tenant_id, track) {
            Some(effects) => {
                let position = effects.remaining_count + 1;
                Answer { reply: Some(Reply::AddedToQueue(position)), effects: Some(effects) }
            },
            None => Answer::saying(Reply::NotInVoiceToPlay),
        },
    }
}

/// The command to skip the playing track: the next queued track, if any,
/// takes its place, and the answer tells how many tracks still wait. A
/// guild without a session is told so.
pub fn skip(manager: &mut VoiceManager, tenant_id: TenantId) -> (answer: Answer)
    requires
        old(manager).wf(),
    ensures
        final(manager).wf(),
        final(manager).self_member() == old(manager).self_member(),
        VoiceManager::skipped(
            old(manager),
            final(manager),
            tenant_id,
            effects_as_result(answer.effects),
        ),
        answer.reply == Some(
            match answer.effects {
                Some(fx) => Reply::Skipped(fx.remaining_count),
                None => Reply::NotInVoiceToPlay,
            },
        ),
{
    match manager.skip(tenant_id) {
        Ok(effects) => Answer {
            reply: Some(Reply::Skipped(effects.remaining_count)),
            effects: Some(effects),
        },
        Err(_) => Answer::saying(Reply::NotInVoiceToPlay),
    }
}

/// The command to stop: the queue is cleared and the playing track halted,
/// with no track starting in between. A guild without a session is told
/// so.
pub fn stop(manager: &mut VoiceManager, tenant_id: TenantId) -> (answer: Answer)
    requires
        old(manager).wf(),
    ensures
        final(manager).wf(),
        final(manager).self_member() == old(manager).self_member(),
        VoiceManager::stopped_all(
            old(manager),
            final(manager),
            tenant_id,
            effects_as_result(answer.effects),
        ),
        answer.reply == Some(
            if answer.effects is Some {
                Reply::QueueCleared
            } else {
                Reply::NotInVoiceToPlay
            },
        ),
{
    match manager.stop_all(tenant_id) {
        Ok(effects) => Answer { reply: Some(Reply::QueueCleared), effects: Some(effects) },
        Err(_) => Answer::saying(Reply::NotInVoiceToPlay),
    }
}

/// What `sounds` asks for.
#[derive(Debug, PartialEq, Eq)]
pub enum SoundsStep {
    /// Say this.
    Reply(Reply),
    /// Say nothing: the cache is missing.
    Silent,
    /// Show one page of names: `title` is the page's number and `text` its
    /// names, one per line.
    Page { title: String, text: String },
}

/// How `sounds` decides: pages are counted from 1, the page has to exist,
/// and a missing cache is passed over in silence.
pub open spec fn sounds_decides(
    page_index: Option<usize>,
    pages: Option<Map<usize, Seq<Seq<char>>>>,
    step: SoundsStep,
) -> bool {
    let index = page_index.unwrap_or(0);
    if index == 0 {
        step == SoundsStep::Reply(Reply::PageIndexRequired)
    } else if pages is None {
        step == SoundsStep::Silent
    } else if !pages->0.contains_key((index - 1) as usize) {
        step == SoundsStep::Reply(Reply::PageNotFound)
    } else {
        step is Page && step->Page_title@ == decimal(index as nat) && step->Page_text@ == joined(
            pages->0[(index - 1) as usize],
            "\n"@,
        )
    }
}

/// The pages of an optional cache.
pub open spec fn pages_of(cache: Option<&AppCache>) -> Option<Map<usize, Seq<Seq<char>>>> {
    match cache {
        Some(c) => Some(c.sounds_pages@),
        None => None,
    }
}

/// The command to list the sound files, for the page number `page_index`
/// that was read from the arguments, or for its absence.
pub fn sounds_request(page_index: Option<usize>, cache: Option<&AppCache>) -> (step: SoundsStep)
    ensures
        sounds_decides(page_index, pages_of(cache), step),
{
    let index = match page_index {
        Some(index) => index,
        None => 0,
    };
    if index == 0 {
        return SoundsStep::Reply(Reply::PageIndexRequired);
    }
    let app_cache = match cache {
        Some(app_cache) => app_cache,
        None => {
            return SoundsStep::Silent;
        },
    };
    match app_cache.sounds_pages.get_page(index - 1) {
        None => SoundsStep::Reply(Reply::PageNotFound),
        Some(names) => SoundsStep::Page {
            title: decimal_text(index as u64),
            text: join(names, "\n"),
        },
    }
}

/// The command to list the sound files: reads the page number from `args`.
pub fn sounds(args: Args, cache: Option<&AppCache>) -> (step: SoundsStep)
    ensures
        sounds_decides(next_usize(args), pages_of(cache), step),
{
    let mut args = args;
    let page_index = single_usize(&mut args);
    sounds_request(page_index, cache)
}

/// What the first half of `spam` asks for.
#[derive(Debug, PartialEq, Eq)]
pub enum SpamStep {
    /// Say this; nothing is played.
    Reply(Reply),
    /// Find out whether the file of this sound exists, and go on with
    /// `get_sound_path` and `spam_plan`.
    Lookup { file: String, repeat_count: i32 },
}

/// How `spam` decides: as `sound` does over the name, and the clip is
/// repeated as often as asked, 10 times where the request is not
/// acceptable.
pub open spec fn spam_decides(file: Option<Seq<char>>, requested: Option<i32>, step: SpamStep) -> bool {
    match file {
        None => step == SpamStep::Reply(Reply::NotAString),
        Some(name) => if is_guarded(name) {
            step == SpamStep::Reply(Reply::Refused)
        } else {
            step is Lookup && step->Lookup_file@ == name && step->Lookup_repeat_count
                == repeat_count(requested, CLIP_REPEATS)
        },
    }
}

/// The command to play one sound over and over, for the name `file` and the
/// count `requested` that were read from the arguments, or for their
/// absence.
pub fn spam_request(file: Option<String>, requested: Option<i32>) -> (step: SpamStep)
    ensures
        spam_decides(text_of(file), requested, step),
{
    match file {
        None => SpamStep::Reply(Reply::NotAString),
        Some(name) => {
            if guarded(name.as_str()) {
                SpamStep::Reply(Reply::Refused)
            } else {
                SpamStep::Lookup {
                    file: name,
                    repeat_count: clamp_repeat_count(requested, CLIP_REPEATS),
                }
            }
        },
    }
}

/// The command to play one sound over and over, first half: reads the name
/// and the count from `args`.
pub fn spam(args: Args) -> (step: SpamStep)
    ensures
        spam_decides(next_quoted_text(args), count_after_quoted_text(args), step),
{
    let mut args = args;
    let file = single_quoted_string(&mut args);
    let requested = single_i32(&mut args);
    spam_request(file, requested)
}

/// One repetition of a clip: rest for `delay_ms` milliseconds, then play
/// what the resolver makes of `request`.
#[derive(Debug, PartialEq, Eq)]
pub struct TimedRequest {
    pub delay_ms: u64,
    pub request: ResolveRequest,
}

/// One repetition of the clip at `path`, after a rest of `delay_ms`
/// milliseconds.
pub fn spam_step(path: &str, delay_ms: u64) -> (step: TimedRequest)
    ensures
        step.delay_ms == delay_ms,
        step.request.source@ == path@,
        !step.request.lazy,
{
    TimedRequest { delay_ms, request: ResolveRequest { source: String::from_str(path), lazy: false } }
}

/// The repetitions of the clip at `path` for `tenant_id`: `repeat_count` of
/// them, each after a rest from 25 up to, but not including, 125
/// milliseconds that chance picks, and none where the guild has no
/// session. Each is played with `sound_resolved`, one operation on the
/// session at a time.
pub fn spam_plan(manager: &VoiceManager, tenant_id: TenantId, path: &str, repeat_count: i32) -> (plan:
    Vec<TimedRequest>)
    requires
        manager.wf(),
    ensures
        plan@.len() == (if manager.sessions().contains_key(tenant_id) && repeat_count > 0 {
            repeat_count as int
        } else {
            0
        }),
        forall|i: int|
            0 <= i < plan@.len() ==> SPAM_PAUSE_MIN_MS <= (#[trigger] plan@[i]).delay_ms
                < SPAM_PAUSE_END_MS && plan@[i].request.source@ == path@ && !plan@[i].request.lazy,
{
    let mut plan: Vec<TimedRequest> = Vec::new();
    if !manager.is_connected(tenant_id) {
        return plan;
    }
    let mut i: i32 = 0;
    while i < repeat_count
        invariant
            0 <= i,
            i == 0 || i <= repeat_count,
            plan@.len() == i,
            forall|k: int|
                0 <= k < plan@.len() ==> SPAM_PAUSE_MIN_MS <= (#[trigger] plan@[k]).delay_ms
                    < SPAM_PAUSE_END_MS && plan@[k].request.source@ == path@
                    && !plan@[k].request.lazy,
        decreases repeat_count - i,
    {
        let delay_ms = random_below(SPAM_PAUSE_MIN_MS, SPAM_PAUSE_END_MS);
        plan.push(spam_step(path, delay_ms));
        i = i + 1;
    }
    plan
}

/// What the first half of `siren` asks for.
#[derive(Debug, PartialEq, Eq)]
pub enum SirenStep {
    /// Say this; nothing is played.
    Reply(Reply),
    /// Find out whether the files of these two sounds exist, and go on with
    /// `get_sound_path` for each and `siren_plan`.
    Lookup { left: String, right: String, repeat_count: i32 },
}

/// Whether a numeral stands somewhere in `option`.
pub open spec fn has_numeral(option: Seq<char>) -> bool {
    exists|i: int| 0 <= i < option.len() && numeric(#[trigger] option[i])
}

/// How `siren` decides over an option `name`, given whether a numeral
/// stands in it: the option has to be without numerals and one of the two
/// that the bot knows; the clips are the option's name with `l.ogg` and
/// with `r.ogg` behind it.
pub open spec fn siren_option_decides(
    name: Seq<char>,
    with_numeral: bool,
    requested: Option<i32>,
    step: SirenStep,
) -> bool {
    if with_numeral {
        step == SirenStep::Reply(Reply::SirenUsage)
    } else if name != "taci"@ && name != "tense"@ {
        step == SirenStep::Reply(Reply::SirenUnknown)
    } else {
        &&& step is Lookup
        &&& step->Lookup_left@ == name + "l.ogg"@
        &&& step->Lookup_right@ == name + "r.ogg"@
        &&& step->Lookup_repeat_count == repeat_count(requested, CLIP_REPEATS)
    }
}

/// How `siren` decides: the option has to be there, and then as
/// `siren_option_decides` says.
pub open spec fn siren_decides(option: Option<Seq<char>>, requested: Option<i32>, step: SirenStep) -> bool {
    match option {
        None => step == SirenStep::Reply(Reply::NotEvenAString),
        Some(name) => siren_option_decides(name, has_numeral(name), requested, step),
    }
}

/// Whether a numeral stands somewhere in `option`.
fn any_numeral(option: &str) -> (b: bool)
    ensures
        b == has_numeral(option@),
{
    let chars = chars_of(option);
    let mut i: usize = 0;
    while i < chars.len()
        invariant
            chars@ == option@,
            i <= chars@.len(),
            forall|k: int| 0 <= k < i ==> !numeric(#[trigger] chars@[k]),
        decreases chars@.len() - i,
    {
        if is_numeric(chars[i]) {
            return true;
        }
        i = i + 1;
    }
    false
}

/// The command to play a siren from the left and the right in turns, for
/// the option `name`, given whether a numeral stands in it, and the count
/// `requested`.
pub fn siren_option(name: &str, with_numeral: bool, requested: Option<i32>) -> (step: SirenStep)
    ensures
        siren_option_decides(name@, with_numeral, requested, step),
{
    if with_numeral {
        return SirenStep::Reply(Reply::SirenUsage);
    }
    if !(same_text(name, "taci") || same_text(name, "tense")) {
        return SirenStep::Reply(Reply::SirenUnknown);
    }
    let mut left = String::from_str(name);
    left.append("l.ogg");
    let mut right = String::from_str(name);
    right.append("r.ogg");
    SirenStep::Lookup { left, right, repeat_count: clamp_repeat_count(requested, CLIP_REPEATS) }
}

/// The command to play a siren from the left and the right in turns, for
/// the option `option` and the count `requested` that were read from the
/// arguments, or for their absence.
pub fn siren_request(option: Option<String>, requested: Option<i32>) -> (step: SirenStep)
    ensures
        siren_decides(text_of(option), requested, step),
{
    match option {
        Some(name) => {
            let with_numeral = any_numeral(name.as_str());
            siren_option(name.as_str(), with_numeral, requested)
        },
        None => SirenStep::Reply(Reply::NotEvenAString),
    }
}

/// The command to play a siren from the left and the right in turns, first
/// half: reads the option and the count from `args`.
pub fn siren(args: Args) -> (step: SirenStep)
    ensures
        siren_decides(next_text(args), count_after_text(args), step),
{
    let mut args = args;
    let option = single_string(&mut args);
    let requested = single_i32(&mut args);
    siren_request(option, requested)
}

/// The clip number `i` of a siren, counted from 0: the left one first, then
/// right and left in turns.
pub open spec fn siren_side(left: Seq<char>, right: Seq<char>, i: int) -> Seq<char> {
    if i % 2 == 0 {
        left
    } else {
        right
    }
}

/// The clips of a siren for `tenant_id`: `repeat_count` of them, from the
/// paths `left` and `right` in turns, beginning on the left, and none where
/// the guild has no session. Each is put into the queue with
/// `siren_resolved`; the first that fails ends the sequence.
pub fn siren_plan(
    manager: &VoiceManager,
    tenant_id: TenantId,
    left: &str,
    right: &str,
    repeat_count: i32,
) -> (plan: Vec<ResolveRequest>)
    requires
        manager.wf(),
    ensures
        plan@.len() == (if manager.sessions().contains_key(tenant_id) && repeat_count > 0 {
            repeat_count as int
        } else {
            0
        }),
        forall|i: int|
            0 <= i < plan@.len() ==> (#[trigger] plan@[i]).source@ == siren_side(left@, right@, i)
                && !plan@[i].lazy,
{
    let mut plan: Vec<ResolveRequest> = Vec::new();
    if !manager.is_connected(tenant_id) {
        return plan;
    }
    let mut use_left_path = false;
    let mut i: i32 = 0;
    while i < repeat_count
        invariant
            0 <= i,
            i == 0 || i <= repeat_count,
            plan@.len() == i,
            use_left_path == (i % 2 != 0),
            forall|k: int|
                0 <= k < plan@.len() ==> (#[trigger] plan@[k]).source@ == siren_side(
                    left@,
                    right@,
                    k,
                ) && !plan@[k].lazy,
        decreases repeat_count - i,
    {
        use_left_path = !use_left_path;
        let path = if use_left_path {
            left
        } else {
            right
        };
        plan.push(ResolveRequest { source: String::from_str(path), lazy: false });
        i = i + 1;
    }
    plan
}

/// One clip of a siren, second half: `resolved` is what the resolver made
/// of the request. A track goes behind every track of the session, without
/// words, and the sequence goes on. A clip that could not be produced is
/// reported and changes nothing, and the sequence ends there: `goes_on` of
/// the answer says so, as it does where the session is gone.
pub fn siren_resolved(
    manager: &mut VoiceManager,
    tenant_id: TenantId,
    resolved: Result<TrackHandle, ResolveError>,
) -> (answer: Answer)
    requires
        old(manager).wf(),
        old(manager).has_room(tenant_id),
    ensures
        final(manager).wf(),
        final(manager).self_member() == old(manager).self_member(),
        final(manager).pending() == old(manager).pending(),
        resolved is Err ==> answer.reply == Some(Reply::SourceFailed) && !answer.takes_effect()
            && final(manager).sessions() == old(manager).sessions(),
        resolved matches Ok(track) ==> enqueue_effects(
            old(manager),
            final(manager),
            tenant_id,
            track,
            answer.effects,
        ),
        resolved is Ok ==> answer.reply is None,
{
    match resolved {
        Err(_) => Answer::saying(Reply::SourceFailed),
        Ok(track) => match enqueue_track(manager, tenant_id, track) {
            Some(effects) => Answer { reply: None, effects: Some(effects) },
            None => Answer::silent(),
        },
    }
}

/// The tracks of a sequence of clips that were taken in: those that the
/// resolver gave before it failed for the first time. `outcomes` holds, for
/// each clip in turn, the track that the resolver gave, or nothing where it
/// failed.
pub open spec fn taken_in(outcomes: Seq<Option<TrackHandle>>) -> Seq<TrackHandle>
    decreases outcomes.len(),
{
    if outcomes.len() == 0 {
        Seq::empty()
    } else {
        match outcomes[0] {
            Some(track) => seq![track] + taken_in(outcomes.drop_first()),
            None => Seq::empty(),
        }
    }
}

/// The session after a sequence of clips with the outcomes `outcomes`, each
/// step taken as `siren_resolved` takes it and the sequence given up as soon
/// as a step's answer does not go on.
pub open spec fn after_sequence(s: SessionState, outcomes: Seq<Option<TrackHandle>>) -> SessionState
    decreases outcomes.len(),
{
    if outcomes.len() == 0 {
        s
    } else {
        match outcomes[0] {
            Some(track) => after_sequence(s.enqueue(track), outcomes.drop_first()),
            None => s,
        }
    }
}

/// A sequence of clips ends at its first failure: where the resolver gives
/// the first `k` clips and fails for the next, exactly those `k` tracks are
/// enqueued, in their order, behind what the session held, and nothing
/// after the failure; what was queued before is as it was.
pub proof fn lemma_sequence_ends_at_first_failure(
    s: SessionState,
    outcomes: Seq<Option<TrackHandle>>,
    k: int,
)
    requires
        s.wf(),
        s.is_connected(),
        0 <= k <= outcomes.len(),
        forall|j: int| 0 <= j < k ==> (#[trigger] outcomes[j]) is Some,
        k < outcomes.len() ==> outcomes[k] is None,
    ensures
        taken_in(outcomes) == Seq::new(k as nat, |i: int| outcomes[i]->0),
        after_sequence(s, outcomes).wf(),
        after_sequence(s, outcomes).play_order() == s.play_order() + taken_in(outcomes),
    decreases outcomes.len(),
{
    if outcomes.len() == 0 || outcomes[0] is None {
        assert(k == 0) by {
            if k > 0 {
                assert(outcomes[0] is Some);
            }
        }
        assert(taken_in(outcomes) =~= Seq::new(0nat, |i: int| outcomes[i]->0));
        assert(s.play_order() + taken_in(outcomes) =~= s.play_order());
    } else {
        assert(k > 0);
        let track = outcomes[0]->0;
        let rest = outcomes.drop_first();
        let next = s.enqueue(track);
        assert(next.play_order() =~= s.play_order().push(track));
        assert forall|j: int| 0 <= j < k - 1 implies (#[trigger] rest[j]) is Some by {
            assert(outcomes[j + 1] is Some);
        }
        lemma_sequence_ends_at_first_failure(next, rest, k - 1);
        assert(taken_in(outcomes) =~= Seq::new(k as nat, |i: int| outcomes[i]->0)) by {
            assert forall|i: int| 0 <= i < k implies taken_in(outcomes)[i] == outcomes[i]->0 by {
                if i > 0 {
                    assert(taken_in(rest)[i - 1] == rest[i - 1]->0);
                }
            }
        }
        assert(s.play_order().push(track) + taken_in(rest) =~= s.play_order() + taken_in(
            outcomes,
        ));
    }
}

} // verus!
