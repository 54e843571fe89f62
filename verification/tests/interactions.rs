use oca_editor::interactions::{
    asset_drop_track, drag_operation, find_drop_track, trim_operation, ClipDrag, DragOperation,
    TrackKind, TrackRow, TrimEdge, TrimOperation,
};
use oca_editor::shortcuts::EditorTool;

fn rows() -> Vec<TrackRow> {
    vec![
        TrackRow { id: 1, kind: TrackKind::Video, under_pointer: false },
        TrackRow { id: 2, kind: TrackKind::Audio, under_pointer: true },
        TrackRow { id: 3, kind: TrackKind::Video, under_pointer: true },
    ]
}

fn drag(source: u64, composite: bool) -> ClipDrag {
    ClipDrag {
        clip_id: 10,
        source_track_id: source,
        kind: TrackKind::Video,
        clip_found: true,
        clip_is_composite: composite,
    }
}

#[test]
fn ripple_and_roll_own_their_trims() {
    assert_eq!(trim_operation(EditorTool::Ripple, TrimEdge::Start), TrimOperation::RippleTrimStart);
    assert_eq!(trim_operation(EditorTool::Roll, TrimEdge::End), TrimOperation::RollEdit);
    assert_eq!(trim_operation(EditorTool::Roll, TrimEdge::Start), TrimOperation::RollFromStartEdge);
    assert_eq!(trim_operation(EditorTool::Select, TrimEdge::End), TrimOperation::TrimEnd);
}

#[test]
fn a_drag_lands_on_the_first_row_of_its_kind_under_the_pointer() {
    assert_eq!(find_drop_track(&rows(), TrackKind::Video), Some(3));
    assert_eq!(find_drop_track(&rows(), TrackKind::Text), None);
    assert_eq!(
        drag_operation(EditorTool::Select, &drag(1, false), &rows()),
        DragOperation::MoveToTrack(3)
    );
}

#[test]
fn composite_clips_and_same_track_drags_move_along_their_track() {
    assert_eq!(
        drag_operation(EditorTool::Select, &drag(1, true), &rows()),
        DragOperation::MoveWithGroup
    );
    assert_eq!(
        drag_operation(EditorTool::Select, &drag(3, false), &rows()),
        DragOperation::MoveWithGroup
    );
}

#[test]
fn slip_and_slide_own_body_drags() {
    assert_eq!(drag_operation(EditorTool::Slide, &drag(1, false), &rows()), DragOperation::Slide);
    assert_eq!(drag_operation(EditorTool::Slip, &drag(1, false), &rows()), DragOperation::Slip);
    let gone = ClipDrag { clip_found: false, ..drag(1, false) };
    assert_eq!(drag_operation(EditorTool::Slip, &gone, &rows()), DragOperation::Skip);
}

#[test]
fn an_asset_drops_on_any_row_under_the_pointer() {
    assert_eq!(asset_drop_track(&rows()), Some(2));
    assert_eq!(asset_drop_track(&vec![]), None);
}
