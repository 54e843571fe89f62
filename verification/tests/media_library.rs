use oca_editor::media_library::{visible_media_assets, MediaEntry, MediaLibraryFilter};

fn entry(id: u64, name: &str, favorited: bool, in_bin: bool) -> MediaEntry {
    MediaEntry {
        id,
        file_name: name.to_string(),
        favorited,
        in_selected_bin: in_bin,
    }
}

fn library() -> Vec<MediaEntry> {
    vec![
        entry(1, "Intro.MP4", false, true),
        entry(2, "voice.wav", true, false),
        entry(3, "Outro.mp4", true, true),
        entry(4, "music.mp3", false, false),
    ]
}

#[test]
fn all_lists_the_library_in_its_own_order() {
    let listed = visible_media_assets(&library(), MediaLibraryFilter::All, true, &vec![], "");
    assert_eq!(listed, vec![0, 1, 2, 3]);
}

#[test]
fn search_is_case_insensitive() {
    let listed = visible_media_assets(&library(), MediaLibraryFilter::All, true, &vec![], "mP4");
    assert_eq!(listed, vec![0, 2]);
    let listed = visible_media_assets(&library(), MediaLibraryFilter::All, true, &vec![], "INTRO");
    assert_eq!(listed, vec![0]);
}

#[test]
fn favorites_keeps_only_starred_assets() {
    let listed =
        visible_media_assets(&library(), MediaLibraryFilter::Favorites, true, &vec![], "");
    assert_eq!(listed, vec![1, 2]);
}

#[test]
fn recent_lists_most_recently_used_first() {
    let recent = vec![4, 1, 4, 9];
    let listed = visible_media_assets(&library(), MediaLibraryFilter::Recent, true, &recent, "");
    assert_eq!(listed, vec![3, 0]);
}

#[test]
fn recent_keeps_library_order_among_assets_sharing_an_id() {
    let assets = vec![
        entry(7, "a", false, false),
        entry(5, "b", false, false),
        entry(7, "c", false, false),
    ];
    let listed = visible_media_assets(&assets, MediaLibraryFilter::Recent, true, &vec![7, 5], "");
    assert_eq!(listed, vec![0, 2, 1]);
}

#[test]
fn smart_bin_uses_its_rule_unless_the_bin_is_gone() {
    let listed =
        visible_media_assets(&library(), MediaLibraryFilter::SmartBin(3), true, &vec![], "");
    assert_eq!(listed, vec![0, 2]);
    let listed =
        visible_media_assets(&library(), MediaLibraryFilter::SmartBin(3), false, &vec![], "");
    assert_eq!(listed, vec![0, 1, 2, 3]);
}

#[test]
fn filter_and_search_combine() {
    let listed =
        visible_media_assets(&library(), MediaLibraryFilter::Favorites, true, &vec![], "out");
    assert_eq!(listed, vec![2]);
}
