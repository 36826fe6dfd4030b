//! Repeat counts and the paths of sound files.
use vstd::prelude::*;
use vstd::string::StringExecFns;
use serenity::framework::standard::Args;
use crate::errors::ErrorKind;
use crate::utils::arguments::{next_i32, single_i32};
use crate::utils::random::pick_one;

verus! {

/// How often the join-and-leave sequence runs where no count is given.
pub const TOGGLE_REPEATS: i32 = 6;

/// How often a clip is repeated where no count is given.
pub const CLIP_REPEATS: i32 = 10;

/// Whether a requested repeat count is taken as it is: more than 0 and less
/// than 50.
pub open spec fn acceptable(count: i32) -> bool {
    0 < count < 50
}

/// The repeat count that holds for a request: the requested count where one
/// was read and is acceptable, and `fallback_value` in every other case.
pub open spec fn repeat_count(requested: Option<i32>, fallback_value: i32) -> i32 {
    match requested {
        Some(count) => if acceptable(count) {
            count
        } else {
            fallback_value
        },
        None => fallback_value,
    }
}

/// Tells an acceptable repeat count from one that is out of range or could
/// not be read (`None`).
pub fn check_repeat_count(requested: Option<i32>) -> (r: Result<i32, ErrorKind>)
    ensures
        match requested {
            Some(count) if acceptable(count) => r == Ok::<i32, ErrorKind>(count),
            _ => r == Err::<i32, ErrorKind>(ErrorKind::InvalidRepeatCount),
        },
{
    match requested {
        Some(count) => {
            if 0 < count && count < 50 {
                Ok(count)
            } else {
                Err(ErrorKind::InvalidRepeatCount)
            }
        },
        None => Err(ErrorKind::InvalidRepeatCount),
    }
}

/// The repeat count for a request that was already read: an invalid count
/// is no failure, the command's own default takes its place.
pub fn clamp_repeat_count(requested: Option<i32>, fallback_value: i32) -> (count: i32)
    ensures
        count == repeat_count(requested, fallback_value),
{
    match check_repeat_count(requested) {
        Ok(count) => count,
        Err(_) => fallback_value,
    }
}

/// The repeat count that the next argument of `args` asks for, or
/// `fallback_value` where it asks for none that is acceptable.
pub fn get_repeat_count(args: Args, fallback_value: i32) -> (count: i32)
    ensures
        count == repeat_count(next_i32(args), fallback_value),
{
    let mut args = args;
    let requested = single_i32(&mut args);
    clamp_repeat_count(requested, fallback_value)
}

/// The directory of the sound files, with its separator.
pub open spec fn sounds_dir() -> Seq<char> {
    "sounds/"@
}

/// The first of the two sounds that stand in for a missing one.
pub open spec fn first_stand_in() -> Seq<char> {
    "sounds/ilie_cum.mp3"@
}

/// The second of the two sounds that stand in for a missing one.
pub open spec fn second_stand_in() -> Seq<char> {
    "sounds/ilie_ha.mp3"@
}

/// The path for the sound `sound_name`: its own file in the sound directory
/// where `exists` says that the file is there, and `stand_in` where not.
pub open spec fn sound_path(sound_name: Seq<char>, exists: bool, stand_in: Seq<char>) -> Seq<char> {
    if exists {
        sounds_dir() + sound_name
    } else {
        stand_in
    }
}

/// The path under which the sound `sound_name` is looked for.
pub fn sound_file(sound_name: &str) -> (path: String)
    ensures
        path@ == sounds_dir() + sound_name@,
{
    let mut path = String::from_str("sounds/");
    path.append(sound_name);
    path
}

/// The path to play for `sound_name`, given whether its file exists and
/// which stand-in was picked for the case that it does not.
pub fn sound_path_with(sound_name: &str, exists: bool, stand_in: &str) -> (path: String)
    ensures
        path@ == sound_path(sound_name@, exists, stand_in@),
{
    if exists {
        sound_file(sound_name)
    } else {
        String::from_str(stand_in)
    }
}

/// The path to play for `sound_name`: its own file where `exists` says
/// that `sound_file(sound_name)` is there, and one of the two stand-ins,
/// picked by chance, where it is not.
pub fn get_sound_path(sound_name: &str, exists: bool) -> (path: String)
    ensures
        exists ==> path@ == sounds_dir() + sound_name@,
        !exists ==> path@ == first_stand_in() || path@ == second_stand_in(),
{
    if exists {
        return sound_path_with(sound_name, true, "");
    }
    let mut sounds: Vec<String> = Vec::new();
    sounds.push(String::from_str("sounds/ilie_cum.mp3"));
    sounds.push(String::from_str("sounds/ilie_ha.mp3"));
    match pick_one(&sounds) {
        Some(picked) => sound_path_with(sound_name, false, picked.as_str()),
        None => sound_path_with(sound_name, false, "sounds/ilie_cum.mp3"),
    }
}

} // verus!
