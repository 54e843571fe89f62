use oca_editor::labels::{audio_role_icon, audio_role_label, AudioRole};
use oca_editor::locale::Locale;

const ROLES: [AudioRole; 4] = [
    AudioRole::Unspecified,
    AudioRole::GameAudio,
    AudioRole::Mic,
    AudioRole::Music,
];

#[test]
fn every_audio_role_has_a_distinct_non_empty_icon() {
    let mut icons: Vec<&str> = ROLES.iter().map(|&r| audio_role_icon(r)).collect();
    for icon in &icons {
        assert!(!icon.is_empty());
    }
    icons.sort_unstable();
    icons.dedup();
    assert_eq!(icons.len(), ROLES.len());
}

#[test]
fn every_audio_role_has_a_distinct_non_empty_label_per_locale() {
    for locale in [Locale::PtBr, Locale::En] {
        let mut labels: Vec<&str> = ROLES.iter().map(|&r| audio_role_label(r, locale)).collect();
        for label in &labels {
            assert!(!label.is_empty());
        }
        labels.sort_unstable();
        labels.dedup();
        assert_eq!(labels.len(), ROLES.len());
    }
}

#[test]
fn audio_role_icons_are_the_single_letters_of_the_picker() {
    assert_eq!(audio_role_icon(AudioRole::Unspecified), "-");
    assert_eq!(audio_role_icon(AudioRole::GameAudio), "G");
    assert_eq!(audio_role_icon(AudioRole::Mic), "V");
    assert_eq!(audio_role_icon(AudioRole::Music), "N");
}

#[test]
fn audio_role_labels_follow_the_locale() {
    assert_eq!(audio_role_label(AudioRole::Music, Locale::En), "Music");
    assert_eq!(audio_role_label(AudioRole::Music, Locale::PtBr), "Música");
}
