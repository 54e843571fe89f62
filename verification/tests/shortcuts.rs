use oca_editor::shortcuts::{editor_shortcuts, EditorTool, ShortcutAction, ShortcutInput};

fn idle() -> ShortcutInput {
    ShortcutInput {
        pointer_down: false,
        ctrl: false,
        shift: false,
        alt: false,
        any_modifier: false,
        wants_keyboard_input: false,
        s_pressed: false,
        delete_pressed: false,
        v_pressed: false,
        c_pressed: false,
        t_pressed: false,
        x_pressed: false,
        escape_pressed: false,
        number_keys_pressed: [false; 9],
        split_combo: false,
        copy_formatting_combo: false,
        paste_formatting_combo: false,
        play_pause_combo: false,
        add_opacity_marker_combo: false,
        undo_combo: false,
        redo_combo: false,
        pending_text_clip: None,
        pending_clip_text: None,
    }
}

#[test]
fn an_idle_frame_only_closes_a_finished_slider_drag() {
    let outcome = editor_shortcuts(&idle());
    assert_eq!(
        outcome.actions,
        vec![ShortcutAction::EndUndoDragTracking { pointer_down: false }]
    );
    assert_eq!(outcome.pending_text_clip, None);
}

#[test]
fn ctrl_c_copies_instead_of_picking_the_razor() {
    let input = ShortcutInput {
        ctrl: true,
        any_modifier: true,
        c_pressed: true,
        ..idle()
    };
    let outcome = editor_shortcuts(&input);
    assert_eq!(
        outcome.actions,
        vec![
            ShortcutAction::EndUndoDragTracking { pointer_down: false },
            ShortcutAction::CopySelectedClip,
        ]
    );
}

#[test]
fn bare_letters_pick_tools_unless_a_text_field_has_the_keyboard() {
    let input = ShortcutInput {
        v_pressed: true,
        t_pressed: true,
        ..idle()
    };
    assert_eq!(
        editor_shortcuts(&input).actions,
        vec![
            ShortcutAction::EndUndoDragTracking { pointer_down: false },
            ShortcutAction::SelectTool(EditorTool::Select),
            ShortcutAction::SelectTool(EditorTool::Text),
        ]
    );
    let typing = ShortcutInput {
        wants_keyboard_input: true,
        ..input
    };
    assert_eq!(editor_shortcuts(&typing).actions.len(), 1);
}

#[test]
fn escape_discards_the_text_tools_still_blank_graphic() {
    let input = ShortcutInput {
        escape_pressed: true,
        pending_text_clip: Some(42),
        pending_clip_text: Some("  \u{3000}".to_string()),
        ..idle()
    };
    let outcome = editor_shortcuts(&input);
    assert_eq!(
        outcome.actions,
        vec![
            ShortcutAction::EndUndoDragTracking { pointer_down: false },
            ShortcutAction::DiscardTextClip(42),
        ]
    );
    assert_eq!(outcome.pending_text_clip, None);
}

#[test]
fn escape_keeps_a_graphic_that_has_text() {
    let input = ShortcutInput {
        escape_pressed: true,
        pending_text_clip: Some(42),
        pending_clip_text: Some(" hi ".to_string()),
        ..idle()
    };
    let outcome = editor_shortcuts(&input);
    assert_eq!(outcome.actions.len(), 1);
    assert_eq!(outcome.pending_text_clip, None);
}

#[test]
fn without_escape_the_pending_graphic_stays_pending() {
    let input = ShortcutInput {
        pending_text_clip: Some(42),
        pending_clip_text: Some(String::new()),
        ..idle()
    };
    let outcome = editor_shortcuts(&input);
    assert_eq!(outcome.actions.len(), 1);
    assert_eq!(outcome.pending_text_clip, Some(42));
}

#[test]
fn number_keys_switch_multicam_angles_only_without_modifiers() {
    let mut keys = [false; 9];
    keys[0] = true;
    keys[8] = true;
    let input = ShortcutInput {
        number_keys_pressed: keys,
        pointer_down: true,
        ..idle()
    };
    assert_eq!(
        editor_shortcuts(&input).actions,
        vec![
            ShortcutAction::EndUndoDragTracking { pointer_down: true },
            ShortcutAction::SwitchMulticamAngle(0),
            ShortcutAction::SwitchMulticamAngle(8),
        ]
    );
    let shifted = ShortcutInput {
        shift: true,
        any_modifier: true,
        ..input
    };
    assert_eq!(editor_shortcuts(&shifted).actions.len(), 1);
}

#[test]
fn commands_run_in_the_editors_order() {
    let input = ShortcutInput {
        ctrl: true,
        any_modifier: true,
        s_pressed: true,
        x_pressed: true,
        delete_pressed: true,
        split_combo: true,
        undo_combo: true,
        redo_combo: true,
        play_pause_combo: true,
        ..idle()
    };
    assert_eq!(
        editor_shortcuts(&input).actions,
        vec![
            ShortcutAction::EndUndoDragTracking { pointer_down: false },
            ShortcutAction::SaveProject,
            ShortcutAction::SplitAtPlayhead,
            ShortcutAction::DeleteSelectedClip,
            ShortcutAction::CutSelectedClip,
            ShortcutAction::TogglePreviewPlayback,
            ShortcutAction::Undo,
            ShortcutAction::Redo,
        ]
    );
}
