use oca_editor::labels::AudioRole;
use oca_editor::tracks::{
    apply_track_commands, CollapsedTracks, TrackAction, TrackCommands, TrackContent,
};

fn no_commands() -> TrackCommands {
    TrackCommands {
        toggle_visibility: vec![],
        toggle_lock: vec![],
        toggle_collapsed: vec![],
        audio_roles: vec![],
        color_labels: vec![],
        renames: vec![],
        duplicates: vec![],
        move_up: vec![],
        move_down: vec![],
        razor_split_tracks: vec![],
        deletes: vec![],
    }
}

#[test]
fn collapsing_twice_expands_again() {
    let mut collapsed = CollapsedTracks::new();
    collapsed.toggle(3);
    assert!(collapsed.contains(3));
    collapsed.toggle(3);
    assert!(!collapsed.contains(3));
}

#[test]
fn toggle_requests_flip_each_row_once_per_request() {
    let mut collapsed = CollapsedTracks::new();
    collapsed.toggle(1);
    let commands = TrackCommands {
        toggle_collapsed: vec![1, 2, 2, 5],
        ..no_commands()
    };
    let actions = apply_track_commands(&commands, &vec![], &mut collapsed);
    assert!(actions.is_empty());
    assert!(!collapsed.contains(1));
    assert!(!collapsed.contains(2));
    assert!(collapsed.contains(5));
}

#[test]
fn deleting_a_track_with_clips_asks_first() {
    let contents = vec![
        TrackContent { id: 1, has_clips: true },
        TrackContent { id: 2, has_clips: false },
    ];
    let commands = TrackCommands {
        deletes: vec![(1, "V1".to_string()), (2, "A1".to_string()), (9, "X".to_string())],
        ..no_commands()
    };
    let actions = apply_track_commands(&commands, &contents, &mut CollapsedTracks::new());
    assert_eq!(
        actions,
        vec![
            TrackAction::ConfirmDelete(1, "V1".to_string()),
            TrackAction::Delete(2),
            TrackAction::Delete(9),
        ]
    );
}

#[test]
fn track_requests_run_in_the_editors_order() {
    let commands = TrackCommands {
        toggle_visibility: vec![1],
        toggle_lock: vec![2],
        audio_roles: vec![(3, AudioRole::Mic)],
        color_labels: vec![(4, Some([1, 2, 3]))],
        renames: vec![(5, "Music".to_string())],
        duplicates: vec![6],
        move_up: vec![7],
        move_down: vec![8],
        razor_split_tracks: vec![9, 9],
        deletes: vec![(10, "T".to_string())],
        ..no_commands()
    };
    let actions = apply_track_commands(&commands, &vec![], &mut CollapsedTracks::new());
    assert_eq!(
        actions,
        vec![
            TrackAction::ToggleVisibility(1),
            TrackAction::ToggleLock(2),
            TrackAction::SetAudioRole(3, AudioRole::Mic),
            TrackAction::SetColorLabel(4, Some([1, 2, 3])),
            TrackAction::BeginRename(5, "Music".to_string()),
            TrackAction::Duplicate(6),
            TrackAction::MoveUp(7),
            TrackAction::MoveDown(8),
            TrackAction::RazorSplit(0),
            TrackAction::RazorSplit(1),
            TrackAction::Delete(10),
        ]
    );
}
