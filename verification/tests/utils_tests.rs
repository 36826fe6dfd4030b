use serenity::framework::standard::{Args, Delimiter};
use voice_sessions::cache::app_cache::{create_app_cache, create_sounds_pages_cache, PAGE_SIZE};
use voice_sessions::errors::ErrorKind;
use voice_sessions::models::config::{command_prefix, Config};
use voice_sessions::models::config_error::ConfigError;
use voice_sessions::utils::diacritics::{clean_all, find_char_match};
use voice_sessions::utils::parse::{
    check_repeat_count, clamp_repeat_count, get_repeat_count, get_sound_path, sound_file,
    sound_path_with, CLIP_REPEATS, TOGGLE_REPEATS,
};
use voice_sessions::utils::text::{
    chars_of, contains, decimal_text, first_char, join, same_text, starts_with,
};

fn args_of(text: &str) -> Args {
    Args::new(text, &[Delimiter::Single(' ')])
}

fn names(count: usize) -> Vec<String> {
    (0..count).map(|i| format!("sound{}.mp3", i)).collect()
}

#[test]
fn accented_letters_are_folded() {
    assert_eq!(find_char_match('Ă'), "A");
    assert_eq!(find_char_match('Æ'), "A");
    assert_eq!(find_char_match('Þ'), "B");
    assert_eq!(find_char_match('Č'), "C");
    assert_eq!(find_char_match('Ð'), "D");
    assert_eq!(find_char_match('Ë'), "E");
    assert_eq!(find_char_match('Ƒ'), "F");
    assert_eq!(find_char_match('Ï'), "I");
    assert_eq!(find_char_match('Ñ'), "N");
    assert_eq!(find_char_match('Ø'), "O");
    assert_eq!(find_char_match('Ř'), "R");
    assert_eq!(find_char_match('Ș'), "S");
    assert_eq!(find_char_match('Ť'), "T");
    assert_eq!(find_char_match('Ü'), "U");
    assert_eq!(find_char_match('Ý'), "Y");
    assert_eq!(find_char_match('Ž'), "Z");
    assert_eq!(find_char_match('ă'), "a");
    assert_eq!(find_char_match('þ'), "b");
    assert_eq!(find_char_match('ç'), "c");
    assert_eq!(find_char_match('ď'), "d");
    assert_eq!(find_char_match('ě'), "e");
    assert_eq!(find_char_match('ƒ'), "f");
    assert_eq!(find_char_match('î'), "i");
    assert_eq!(find_char_match('ň'), "n");
    assert_eq!(find_char_match('ö'), "o");
    assert_eq!(find_char_match('ř'), "r");
    assert_eq!(find_char_match('ș'), "s");
    assert_eq!(find_char_match('ț'), "t");
    assert_eq!(find_char_match('ů'), "u");
    assert_eq!(find_char_match('ÿ'), "y");
    assert_eq!(find_char_match('ž'), "z");
}

#[test]
fn sharp_s_becomes_two_letters() {
    assert_eq!(find_char_match('ß'), "ss");
    assert_eq!(clean_all("Straße"), "Strasse");
}

#[test]
fn other_characters_stay_as_they_are() {
    assert_eq!(find_char_match('x'), "x");
    assert_eq!(find_char_match('A'), "A");
    assert_eq!(find_char_match(' '), " ");
    assert_eq!(find_char_match('7'), "7");
    assert_eq!(find_char_match('😔'), "😔");
    assert_eq!(find_char_match('щ'), "щ");
}

#[test]
fn clean_all_folds_every_character() {
    assert_eq!(clean_all(""), "");
    assert_eq!(clean_all("taci"), "taci");
    assert_eq!(clean_all("tăcuși"), "tacusi");
    assert_eq!(clean_all("glumești, Ștefan!"), "glumesti, Stefan!");
    assert_eq!(clean_all("ÀÉÎÕÜ àéîõü"), "AEIOU aeiou");
}

#[test]
fn cleaning_twice_changes_nothing_more() {
    for text in ["tăcuși", "Straße", "plain", "ÆÞß😊"] {
        let once = clean_all(text);
        assert_eq!(clean_all(&once), once);
        assert!(once.chars().count() >= text.chars().count());
    }
}

#[test]
fn cleaning_goes_piece_by_piece() {
    let a = "Țară ";
    let b = "fără ß";
    let whole = format!("{}{}", a, b);
    assert_eq!(clean_all(&whole), format!("{}{}", clean_all(a), clean_all(b)));
}

#[test]
fn repeat_count_boundaries() {
    let default = TOGGLE_REPEATS;
    assert_eq!(default, 6);
    assert_eq!(get_repeat_count(args_of("-1"), default), default);
    assert_eq!(get_repeat_count(args_of("0"), default), default);
    assert_eq!(get_repeat_count(args_of("1"), default), 1);
    assert_eq!(get_repeat_count(args_of("49"), default), 49);
    assert_eq!(get_repeat_count(args_of("50"), default), default);
    assert_eq!(get_repeat_count(args_of("51"), default), default);
    assert_eq!(get_repeat_count(args_of("abc"), default), default);
}

#[test]
fn repeat_count_falls_back_per_command() {
    assert_eq!(CLIP_REPEATS, 10);
    assert_eq!(get_repeat_count(args_of(""), CLIP_REPEATS), 10);
    assert_eq!(get_repeat_count(args_of("abc"), CLIP_REPEATS), 10);
    assert_eq!(get_repeat_count(args_of("100"), CLIP_REPEATS), 10);
    assert_eq!(get_repeat_count(args_of("7 9"), CLIP_REPEATS), 7);
    assert_eq!(get_repeat_count(args_of("2147483648"), CLIP_REPEATS), 10);
}

#[test]
fn clamp_repeat_count_on_read_values() {
    assert_eq!(clamp_repeat_count(None, 6), 6);
    assert_eq!(clamp_repeat_count(Some(-1), 6), 6);
    assert_eq!(clamp_repeat_count(Some(0), 6), 6);
    assert_eq!(clamp_repeat_count(Some(1), 6), 1);
    assert_eq!(clamp_repeat_count(Some(25), 6), 25);
    assert_eq!(clamp_repeat_count(Some(49), 6), 49);
    assert_eq!(clamp_repeat_count(Some(50), 6), 6);
    assert_eq!(clamp_repeat_count(Some(51), 6), 6);
    assert_eq!(clamp_repeat_count(Some(i32::MAX), 10), 10);
    assert_eq!(clamp_repeat_count(Some(i32::MIN), 10), 10);
}

#[test]
fn invalid_repeat_count_is_its_own_kind() {
    assert_eq!(check_repeat_count(Some(1)), Ok(1));
    assert_eq!(check_repeat_count(Some(49)), Ok(49));
    assert_eq!(check_repeat_count(Some(0)), Err(ErrorKind::InvalidRepeatCount));
    assert_eq!(check_repeat_count(Some(50)), Err(ErrorKind::InvalidRepeatCount));
    assert_eq!(check_repeat_count(None), Err(ErrorKind::InvalidRepeatCount));
}

#[test]
fn error_kinds_that_only_inform() {
    assert!(ErrorKind::NotConnected.benign());
    assert!(ErrorKind::AlreadyInState.benign());
    assert!(ErrorKind::InvalidRepeatCount.benign());
    assert!(!ErrorKind::ConnectionFailed.benign());
    assert!(!ErrorKind::DisconnectFailed.benign());
    assert!(!ErrorKind::ResolveError.benign());
}

#[test]
fn sound_path_of_an_existing_file() {
    assert_eq!(sound_file("bruh.mp3"), "sounds/bruh.mp3");
    assert_eq!(get_sound_path("bruh.mp3", true), "sounds/bruh.mp3");
    assert_eq!(get_sound_path("", true), "sounds/");
    assert_eq!(sound_path_with("bruh.mp3", true, "sounds/x.mp3"), "sounds/bruh.mp3");
}

#[test]
fn sound_path_of_a_missing_file_is_a_stand_in() {
    assert_eq!(sound_path_with("bruh.mp3", false, "sounds/x.mp3"), "sounds/x.mp3");
    let mut seen_first = false;
    let mut seen_second = false;
    for _ in 0..200 {
        let path = get_sound_path("bruh.mp3", false);
        assert!(path == "sounds/ilie_cum.mp3" || path == "sounds/ilie_ha.mp3");
        seen_first = seen_first || path == "sounds/ilie_cum.mp3";
        seen_second = seen_second || path == "sounds/ilie_ha.mp3";
    }
    assert!(seen_first && seen_second);
}

#[test]
fn text_prefix_and_search() {
    assert!(starts_with("http://x", "http"));
    assert!(starts_with("https://x", "http"));
    assert!(starts_with("http", "http"));
    assert!(!starts_with("htt", "http"));
    assert!(!starts_with("xhttp", "http"));
    assert!(starts_with("anything", ""));
    assert!(contains("nu mai tacusi acum", "tacusi"));
    assert!(contains("tacusi", "tacusi"));
    assert!(contains("xtacusi", "tacusi"));
    assert!(!contains("tacus", "tacusi"));
    assert!(!contains("", "tacusi"));
    assert!(contains("abc", ""));
    assert!(contains("", ""));
    assert!(contains("aab", "ab"));
    assert!(same_text("taci", "taci"));
    assert!(!same_text("taci", "tacI"));
    assert!(!same_text("taci", "tacii"));
    assert!(same_text("", ""));
}

#[test]
fn text_characters() {
    assert_eq!(chars_of("aß😊"), vec!['a', 'ß', '😊']);
    assert_eq!(chars_of(""), Vec::<char>::new());
    assert_eq!(first_char("~x"), Some('~'));
    assert_eq!(first_char("😊x"), Some('😊'));
    assert_eq!(first_char(""), None);
}

#[test]
fn numbers_in_decimal() {
    assert_eq!(decimal_text(0), "0");
    assert_eq!(decimal_text(7), "7");
    assert_eq!(decimal_text(10), "10");
    assert_eq!(decimal_text(1234567890), "1234567890");
    assert_eq!(decimal_text(u64::MAX), "18446744073709551615");
}

#[test]
fn lines_are_joined_with_a_separator() {
    assert_eq!(join(&vec![], "\n"), "");
    assert_eq!(join(&vec![String::from("a")], "\n"), "a");
    assert_eq!(join(&vec![String::from("a"), String::from("b"), String::from("")], "\n"), "a\nb\n");
    assert_eq!(join(&vec![String::from("a"), String::from("b")], ", "), "a, b");
}

#[test]
fn no_listing_gives_no_pages() {
    let pages = create_sounds_pages_cache(None);
    assert_eq!(pages.page_count(), 0);
    assert_eq!(pages.get_page(0), None);
    let cache = create_app_cache(None);
    assert_eq!(cache.sounds_pages.get_page(0), None);
}

#[test]
fn empty_listing_gives_no_pages() {
    let pages = create_sounds_pages_cache(Some(vec![]));
    assert_eq!(pages.page_count(), 0);
    assert_eq!(pages.get_page(0), None);
}

#[test]
fn listing_is_cut_into_pages_of_25() {
    assert_eq!(PAGE_SIZE, 25);
    let all = names(60);
    let cache = create_app_cache(Some(names(60)));
    let pages = &cache.sounds_pages;
    assert_eq!(pages.page_count(), 3);
    assert_eq!(pages.get_page(0), Some(&all[0..25].to_vec()));
    assert_eq!(pages.get_page(1), Some(&all[25..50].to_vec()));
    assert_eq!(pages.get_page(2), Some(&all[50..60].to_vec()));
    assert_eq!(pages.get_page(3), None);
}

#[test]
fn full_last_page_is_not_followed_by_an_empty_one() {
    let pages = create_sounds_pages_cache(Some(names(50)));
    assert_eq!(pages.page_count(), 2);
    assert_eq!(pages.get_page(1).unwrap().len(), 25);
    assert_eq!(pages.get_page(2), None);
    let pages = create_sounds_pages_cache(Some(names(1)));
    assert_eq!(pages.page_count(), 1);
    assert_eq!(pages.get_page(0), Some(&vec![String::from("sound0.mp3")]));
    let pages = create_sounds_pages_cache(Some(names(26)));
    assert_eq!(pages.page_count(), 2);
    assert_eq!(pages.get_page(1), Some(&vec![String::from("sound25.mp3")]));
}

#[test]
fn config_reads_as_one_line() {
    let config = Config { bot_token: String::from("abc") };
    assert_eq!(config.describe(), "bot_token: abc");
    assert_eq!(command_prefix(), ".");
}

#[test]
fn config_falls_back_on_the_environment() {
    let loaded = Config::or_fallback(Ok(Config { bot_token: String::from("file") }), None);
    assert_eq!(loaded.unwrap().bot_token, "file");
    let loaded = Config::or_fallback(
        Ok(Config { bot_token: String::from("file") }),
        Some(String::from("env")),
    );
    assert_eq!(loaded.unwrap().bot_token, "file");
    let failed = Config::or_fallback(
        Err(ConfigError::NotFound { source: String::from("gone") }),
        Some(String::from("env")),
    );
    assert_eq!(failed.unwrap().bot_token, "env");
    let failed =
        Config::or_fallback(Err(ConfigError::ReadFail { source: String::from("bad") }), None);
    assert_eq!(failed.err(), Some(ConfigError::ReadFail { source: String::from("bad") }));
}

#[test]
fn config_errors_read_as_text() {
    assert_eq!(
        ConfigError::NotFound { source: String::from("gone") }.message(),
        "config.json not found. Reason: gone"
    );
    assert_eq!(
        ConfigError::ReadFail { source: String::from("bad") }.message(),
        "Could not read from file. Reason: bad"
    );
    assert_eq!(
        ConfigError::JsonConvertFail { source: String::from("eof") }.message(),
        "Could not convert from JSON to Config. Reason: eof"
    );
}
