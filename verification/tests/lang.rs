//! Language codes and the announcement assets.

use voice_session::audio::{connect_announcement_text, get_connect_audio_path};
use voice_session::language::Language;

#[test]
fn japanese_codes_parse() {
    assert_eq!(Language::from_code("japanese"), Language::Japanese);
    assert_eq!(Language::from_code("ja"), Language::Japanese);
    assert_eq!(Language::from_code("jp"), Language::Japanese);
    assert_eq!(Language::from_code("JAPANESE"), Language::Japanese);
    assert_eq!(Language::from_code("Ja"), Language::Japanese);
}

#[test]
fn everything_else_defaults_to_english() {
    assert_eq!(Language::from_code("english"), Language::English);
    assert_eq!(Language::from_code(""), Language::English);
    assert_eq!(Language::from_code("fr"), Language::English);
    assert_eq!(Language::from_code("jap"), Language::English);
    assert_eq!(Language::default(), Language::English);
}

#[test]
fn codes_round_trip() {
    assert_eq!(Language::from_code(&Language::Japanese.code()), Language::Japanese);
    assert_eq!(Language::from_code(&Language::English.code()), Language::English);
    assert_eq!(Language::English.code(), "english");
    assert_eq!(Language::Japanese.code(), "japanese");
}

#[test]
fn audio_paths_follow_language() {
    assert_eq!(
        get_connect_audio_path(Language::English),
        "assets/audio/connect_en.mp3"
    );
    assert_eq!(
        get_connect_audio_path(Language::Japanese),
        "assets/audio/connect_jp.mp3"
    );
}

#[test]
fn announcement_text_follows_language() {
    assert_eq!(connect_announcement_text(Language::English), "Connected to VC");
    assert_eq!(connect_announcement_text(Language::Japanese), "接続しました");
}
