use oca_editor::selection::{
    apply_selection_commands, Selection, SelectionAction, SelectionCommands,
};

fn nothing() -> SelectionCommands {
    SelectionCommands {
        clicked_clip_id: None,
        clicked_text_clip_id: None,
        clicked_shape_clip_id: None,
        delete_text_clip_requests: vec![],
        delete_shape_clip_requests: vec![],
        multi_select_requests: vec![],
        copy_requests: vec![],
        cut_requests: vec![],
        copy_formatting_requests: vec![],
        paste_formatting_requests: vec![],
        paste_requested: false,
        merge_into_composite_requested: false,
        create_compound_clip_requested: false,
        open_nested_sequence_request: None,
    }
}

const EMPTY: Selection = Selection {
    clip: None,
    text_clip: None,
    shape_clip: None,
};

#[test]
fn clicking_a_graphic_clears_the_clip_selection() {
    let mut selection = Selection { clip: Some(4), ..EMPTY };
    let commands = SelectionCommands {
        clicked_text_clip_id: Some(9),
        ..nothing()
    };
    let actions = apply_selection_commands(&mut selection, &commands);
    assert!(actions.is_empty());
    assert_eq!(selection, Selection { text_clip: Some(9), ..EMPTY });
}

#[test]
fn clicking_a_clip_selects_it_through_the_editor() {
    let mut selection = Selection { shape_clip: Some(2), ..EMPTY };
    let commands = SelectionCommands {
        clicked_clip_id: Some(5),
        copy_requests: vec![5],
        ..nothing()
    };
    let actions = apply_selection_commands(&mut selection, &commands);
    assert_eq!(
        actions,
        vec![SelectionAction::SelectTimelineClip(5), SelectionAction::CopyClip(5)]
    );
    assert_eq!(selection, Selection { clip: Some(5), ..EMPTY });
}

#[test]
fn deleting_the_selected_graphic_deselects_it() {
    let mut selection = Selection { text_clip: Some(3), ..EMPTY };
    let commands = SelectionCommands {
        delete_text_clip_requests: vec![1, 3],
        delete_shape_clip_requests: vec![3],
        ..nothing()
    };
    let actions = apply_selection_commands(&mut selection, &commands);
    assert_eq!(
        actions,
        vec![
            SelectionAction::DeleteTextClip(1),
            SelectionAction::DeleteTextClip(3),
            SelectionAction::DeleteShapeClip(3),
        ]
    );
    assert_eq!(selection, EMPTY);
}

#[test]
fn the_last_clip_command_leaves_its_clip_selected() {
    let mut selection = EMPTY;
    let commands = SelectionCommands {
        cut_requests: vec![7],
        paste_formatting_requests: vec![8],
        paste_requested: true,
        open_nested_sequence_request: Some(11),
        ..nothing()
    };
    let actions = apply_selection_commands(&mut selection, &commands);
    assert_eq!(
        actions,
        vec![
            SelectionAction::CutClip(7),
            SelectionAction::PasteClipFormatting(8),
            SelectionAction::PasteClipAtPlayhead,
            SelectionAction::OpenNestedSequence(11),
        ]
    );
    assert_eq!(selection.clip, Some(8));
}
