use oca_editor::shortcuts::EditorTool;
use oca_editor::timeline_frame::{
    clip_click, timeline_frame_requests, timeline_frame_steps, ClipBodyEvent, ClipClick,
    GraphicBlockEvent, TimelineFrameStep,
};
use oca_editor::text_props::GraphicKind;

fn event(clip_id: u64, track_id: u64) -> ClipBodyEvent {
    ClipBodyEvent {
        clip_id,
        track_id,
        nested_sequence_id: None,
        clicked: false,
        double_clicked: false,
        pointer_known: true,
        drag_started: false,
        menu_open: false,
        menu_opens_compound: false,
    }
}

fn graphic(kind: GraphicKind, id: u64) -> GraphicBlockEvent {
    GraphicBlockEvent {
        kind,
        id,
        clicked: false,
        delete_requested: false,
        drag_started: false,
    }
}

#[test]
fn a_click_cuts_under_razor_toggles_with_ctrl_and_selects_otherwise() {
    let clicked = ClipBodyEvent { clicked: true, ..event(7, 3) };
    assert_eq!(clip_click(EditorTool::Razor, false, &clicked), ClipClick::RazorSplit(3));
    assert_eq!(clip_click(EditorTool::Razor, true, &clicked), ClipClick::RazorSplit(3));
    assert_eq!(clip_click(EditorTool::Select, true, &clicked), ClipClick::ToggleMultiSelect(7));
    assert_eq!(clip_click(EditorTool::Ripple, false, &clicked), ClipClick::Select(7));
    assert_eq!(clip_click(EditorTool::Select, false, &event(7, 3)), ClipClick::Nothing);
    let unknown = ClipBodyEvent { pointer_known: false, ..clicked };
    assert_eq!(clip_click(EditorTool::Razor, false, &unknown), ClipClick::Nothing);
}

#[test]
fn a_frame_gathers_clicks_double_clicks_and_drags() {
    let events = vec![
        ClipBodyEvent { clicked: true, ..event(1, 10) },
        ClipBodyEvent { double_clicked: true, nested_sequence_id: Some(42), ..event(2, 10) },
        ClipBodyEvent { clicked: true, drag_started: true, ..event(3, 11) },
        ClipBodyEvent { double_clicked: true, ..event(4, 11) },
    ];
    let plain = timeline_frame_requests(EditorTool::Select, false, &events, &vec![]);
    assert_eq!(plain.clicked_clip, Some(3));
    assert!(plain.multi_select.is_empty());
    assert!(plain.razor_splits.is_empty());
    assert_eq!(plain.open_nested_sequence, Some(42));
    assert!(plain.drag_started);

    let ctrl = timeline_frame_requests(EditorTool::Select, true, &events, &vec![]);
    assert_eq!(ctrl.multi_select, vec![1, 3]);
    assert_eq!(ctrl.clicked_clip, None);

    let razor = timeline_frame_requests(EditorTool::Razor, false, &events, &vec![]);
    assert_eq!(razor.razor_splits, vec![10, 11]);
    assert_eq!(razor.clicked_clip, None);

    let quiet = timeline_frame_requests(EditorTool::Select, false, &vec![event(1, 10)], &vec![]);
    assert!(!quiet.drag_started);
    assert_eq!(quiet.open_nested_sequence, None);
}

#[test]
fn a_started_drag_takes_one_snapshot_before_trims_and_moves() {
    assert_eq!(
        timeline_frame_steps(true),
        vec![
            TimelineFrameStep::ApplySelectionCommands,
            TimelineFrameStep::ApplyTrackCommands,
            TimelineFrameStep::ApplyClipCommands,
            TimelineFrameStep::PushUndoSnapshot,
            TimelineFrameStep::ApplyClipInteractions,
            TimelineFrameStep::ApplyThumbnailWork,
            TimelineFrameStep::ApplyPendingAssetDrop,
        ]
    );
    assert!(!timeline_frame_steps(false).contains(&TimelineFrameStep::PushUndoSnapshot));
    assert_eq!(timeline_frame_steps(false).len(), 6);
}

#[test]
fn a_context_menu_selects_its_clip_and_can_open_a_compound_clip() {
    let events = vec![
        ClipBodyEvent { menu_open: true, ..event(5, 1) },
        ClipBodyEvent {
            menu_open: true,
            menu_opens_compound: true,
            nested_sequence_id: Some(77),
            ..event(6, 1)
        },
    ];
    let razor = timeline_frame_requests(EditorTool::Razor, false, &events, &vec![]);
    assert_eq!(razor.clicked_clip, Some(6));
    assert_eq!(razor.open_nested_sequence, Some(77));
    assert!(razor.razor_splits.is_empty());
}

#[test]
fn graphics_select_delete_and_start_drags() {
    let graphics = vec![
        GraphicBlockEvent { clicked: true, ..graphic(GraphicKind::Text, 1) },
        GraphicBlockEvent { delete_requested: true, ..graphic(GraphicKind::Shape, 2) },
        GraphicBlockEvent { clicked: true, delete_requested: true, ..graphic(GraphicKind::Text, 3) },
        GraphicBlockEvent { drag_started: true, ..graphic(GraphicKind::Shape, 4) },
    ];
    let frame = timeline_frame_requests(EditorTool::Select, false, &vec![event(9, 1)], &graphics);
    assert_eq!(frame.clicked_text_clip, Some(3));
    assert_eq!(frame.clicked_shape_clip, None);
    assert_eq!(frame.delete_text_clips, vec![3]);
    assert_eq!(frame.delete_shape_clips, vec![2]);
    assert!(frame.drag_started);
    assert_eq!(frame.clicked_clip, None);
}
