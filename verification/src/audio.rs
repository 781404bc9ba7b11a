//! Language-dependent choices for the one-shot "connected" announcement.

use vstd::prelude::*;
use crate::language::Language;

verus! {

/// Path of the canned announcement clip played right after a successful join.
pub open spec fn spec_connect_audio_path(language: Language) -> Seq<char> {
    match language {
        Language::English => "assets/audio/connect_en.mp3"@,
        Language::Japanese => "assets/audio/connect_jp.mp3"@,
    }
}

/// Returns the file path of the announcement clip for `language`.
pub fn get_connect_audio_path(language: Language) -> (p: String)
    ensures
        p@ == spec_connect_audio_path(language),
{
    match language {
        Language::English => String::from_str("assets/audio/connect_en.mp3"),
        Language::Japanese => String::from_str("assets/audio/connect_jp.mp3"),
    }
}

/// The words spoken by the announcement clip for `language`.
pub open spec fn spec_connect_announcement(language: Language) -> Seq<char> {
    match language {
        Language::English => "Connected to VC"@,
        Language::Japanese => "接続しました"@,
    }
}

/// Returns the text from which the announcement clip for `language` is
/// synthesized.
pub fn connect_announcement_text(language: Language) -> (t: String)
    ensures
        t@ == spec_connect_announcement(language),
{
    match language {
        Language::English => String::from_str("Connected to VC"),
        Language::Japanese => String::from_str("接続しました"),
    }
}

} // verus!
