use vstd::prelude::*;

use crate::shortcuts::EditorTool;

verus! {

/// What a timeline track holds.
#[derive(Clone, Copy, Debug, PartialEq, Eq, Structural)]
pub enum TrackKind {
    Video,
    Audio,
    Text,
    Shape,
}

/// Which edge of a media clip a trim drag moves.
#[derive(Clone, Copy, Debug, PartialEq, Eq, Structural)]
pub enum TrimEdge {
    Start,
    End,
}

/// The edit a trim drag performs.
#[derive(Clone, Copy, Debug, PartialEq, Eq, Structural)]
pub enum TrimOperation {
    /// Trim the start and close the gap by shifting what follows.
    RippleTrimStart,
    /// Trim the end and close the gap by shifting what follows.
    RippleTrimEnd,
    /// Move the cut with the previous clip, dragged from this clip's start edge.
    RollFromStartEdge,
    /// Move the cut with the next clip, dragged from this clip's end edge.
    RollEdit,
    TrimStart,
    TrimEnd,
}

/// The Ripple and Roll tools turn a trim into their own edit; every other tool trims plainly.
pub open spec fn trim_operation_for(tool: EditorTool, edge: TrimEdge) -> TrimOperation {
    match (tool, edge) {
        (EditorTool::Ripple, TrimEdge::Start) => TrimOperation::RippleTrimStart,
        (EditorTool::Ripple, TrimEdge::End) => TrimOperation::RippleTrimEnd,
        (EditorTool::Roll, TrimEdge::Start) => TrimOperation::RollFromStartEdge,
        (EditorTool::Roll, TrimEdge::End) => TrimOperation::RollEdit,
        (_, TrimEdge::Start) => TrimOperation::TrimStart,
        (_, TrimEdge::End) => TrimOperation::TrimEnd,
    }
}

/// Whether a trim edit moves the clip's start edge (rather than its end edge).
pub open spec fn moves_start_edge(op: TrimOperation) -> bool {
    op == TrimOperation::RippleTrimStart || op == TrimOperation::RollFromStartEdge || op
        == TrimOperation::TrimStart
}

/// A trim always edits the edge that was dragged; the Ripple tool always ripples, the Roll
/// tool always rolls, and every other tool trims plainly.
pub proof fn lemma_trim_follows_tool_and_edge(tool: EditorTool, edge: TrimEdge)
    ensures
        moves_start_edge(trim_operation_for(tool, edge)) <==> edge == TrimEdge::Start,
        tool == EditorTool::Ripple ==> (trim_operation_for(tool, edge)
            == TrimOperation::RippleTrimStart || trim_operation_for(tool, edge)
            == TrimOperation::RippleTrimEnd),
        tool == EditorTool::Roll ==> (trim_operation_for(tool, edge)
            == TrimOperation::RollFromStartEdge || trim_operation_for(tool, edge)
            == TrimOperation::RollEdit),
        tool != EditorTool::Ripple && tool != EditorTool::Roll ==> (trim_operation_for(tool, edge)
            == TrimOperation::TrimStart || trim_operation_for(tool, edge)
            == TrimOperation::TrimEnd),
{
}

/// The edit a trim drag on a media clip's `edge` performs with the active `tool`.
pub fn trim_operation(tool: EditorTool, edge: TrimEdge) -> (op: TrimOperation)
    ensures
        op == trim_operation_for(tool, edge),
        tool == EditorTool::Ripple ==> op == (if edge == TrimEdge::Start {
            TrimOperation::RippleTrimStart
        } else {
            TrimOperation::RippleTrimEnd
        }),
        tool == EditorTool::Roll ==> op == (if edge == TrimEdge::Start {
            TrimOperation::RollFromStartEdge
        } else {
            TrimOperation::RollEdit
        }),
        tool != EditorTool::Ripple && tool != EditorTool::Roll ==> op == (if edge == TrimEdge::Start {
            TrimOperation::TrimStart
        } else {
            TrimOperation::TrimEnd
        }),
{
    proof {
        lemma_trim_follows_tool_and_edge(tool, edge);
    }
    match (tool, edge) {
        (EditorTool::Ripple, TrimEdge::Start) => TrimOperation::RippleTrimStart,
        (EditorTool::Ripple, TrimEdge::End) => TrimOperation::RippleTrimEnd,
        (EditorTool::Roll, TrimEdge::Start) => TrimOperation::RollFromStartEdge,
        (EditorTool::Roll, TrimEdge::End) => TrimOperation::RollEdit,
        (_, TrimEdge::Start) => TrimOperation::TrimStart,
        (_, TrimEdge::End) => TrimOperation::TrimEnd,
    }
}

/// One track row as a clip drag sees it: its id, kind, and whether the pointer's height
/// falls inside the row.
#[derive(Clone, Copy, Debug, PartialEq, Eq, Structural)]
pub struct TrackRow {
    pub id: u64,
    pub kind: TrackKind,
    pub under_pointer: bool,
}

/// A finished clip body drag: the clip, the track it started on, the kind of track it can
/// land on, and whether the clip is still on the timeline and belongs to a composite group.
#[derive(Clone, Copy, Debug, PartialEq, Eq, Structural)]
pub struct ClipDrag {
    pub clip_id: u64,
    pub source_track_id: u64,
    pub kind: TrackKind,
    pub clip_found: bool,
    pub clip_is_composite: bool,
}

/// The edit a clip body drag performs.
#[derive(Clone, Copy, Debug, PartialEq, Eq, Structural)]
pub enum DragOperation {
    /// Slip the clip's source window by the drag's distance.
    Slip,
    /// Slide the clip between its neighbours.
    Slide,
    /// Move the clip onto this other track.
    MoveToTrack(u64),
    /// Move the clip (with its composite group, if any) along its own track.
    MoveWithGroup,
    /// Nothing: the slipped clip is no longer on the timeline.
    Skip,
}

/// The index of the first row of `kind` under the pointer, if any.
pub open spec fn is_drop_row(rows: Seq<TrackRow>, kind: TrackKind, i: int) -> bool {
    &&& 0 <= i < rows.len()
    &&& rows[i].kind == kind
    &&& rows[i].under_pointer
    &&& forall|j: int| 0 <= j < i ==> !(rows[j].kind == kind && rows[j].under_pointer)
}

/// The track a drag of this kind would land on.
pub open spec fn drop_track(rows: Seq<TrackRow>, kind: TrackKind) -> Option<u64> {
    if exists|i: int| is_drop_row(rows, kind, i) {
        Some(rows[choose|i: int| is_drop_row(rows, kind, i)].id)
    } else {
        None
    }
}

/// What a drag does: the Slip and Slide tools own body drags; otherwise a drag released over
/// another track of its kind moves the clip there, unless it is part of a composite group, and
/// any other drag moves the clip (with its group) along its track.
pub open spec fn drag_operation_for(
    tool: EditorTool,
    drag: ClipDrag,
    rows: Seq<TrackRow>,
) -> DragOperation {
    if tool == EditorTool::Slip {
        if drag.clip_found {
            DragOperation::Slip
        } else {
            DragOperation::Skip
        }
    } else if tool == EditorTool::Slide {
        DragOperation::Slide
    } else {
        match drop_track(rows, drag.kind) {
            Some(track_id) => if track_id != drag.source_track_id && !(drag.clip_found
                && drag.clip_is_composite) {
                DragOperation::MoveToTrack(track_id)
            } else {
                DragOperation::MoveWithGroup
            },
            None => DragOperation::MoveWithGroup,
        }
    }
}

/// The first row of `kind` under the pointer is unique.
proof fn lemma_drop_row_unique(rows: Seq<TrackRow>, kind: TrackKind, i: int, j: int)
    requires
        is_drop_row(rows, kind, i),
        is_drop_row(rows, kind, j),
    ensures
        i == j,
{
    if i < j {
        assert(!(rows[i].kind == kind && rows[i].under_pointer));
    } else if j < i {
        assert(!(rows[j].kind == kind && rows[j].under_pointer));
    }
}

/// The track, among `rows` in timeline order, that a drag of this kind lands on.
pub fn find_drop_track(rows: &Vec<TrackRow>, kind: TrackKind) -> (track: Option<u64>)
    ensures
        track == drop_track(rows@, kind),
{
    let mut i: usize = 0;
    while i < rows.len()
        invariant
            i <= rows@.len(),
            forall|j: int| 0 <= j < i ==> !(rows@[j].kind == kind && rows@[j].under_pointer),
        decreases rows@.len() - i,
    {
        if rows[i].kind == kind && rows[i].under_pointer {
            proof {
                assert(is_drop_row(rows@, kind, i as int));
                let c = choose|c: int| is_drop_row(rows@, kind, c);
                lemma_drop_row_unique(rows@, kind, i as int, c);
            }
            return Some(rows[i].id);
        }
        i = i + 1;
    }
    assert(!exists|c: int| is_drop_row(rows@, kind, c));
    None
}

/// The edit a finished clip body drag performs with the active `tool`.
pub fn drag_operation(tool: EditorTool, drag: &ClipDrag, rows: &Vec<TrackRow>) -> (op: DragOperation)
    ensures
        op == drag_operation_for(tool, *drag, rows@),
{
    if tool == EditorTool::Slip {
        if drag.clip_found {
            return DragOperation::Slip;
        }
        return DragOperation::Skip;
    }
    if tool == EditorTool::Slide {
        return DragOperation::Slide;
    }
    let target = find_drop_track(rows, drag.kind);
    let is_composite = drag.clip_found && drag.clip_is_composite;
    match target {
        Some(track_id) => if track_id != drag.source_track_id && !is_composite {
            DragOperation::MoveToTrack(track_id)
        } else {
            DragOperation::MoveWithGroup
        },
        None => DragOperation::MoveWithGroup,
    }
}

/// Where an asset dropped from the media library goes: the first track row (of any kind)
/// under the pointer, or `None` to let the editor pick a matching track itself.
pub fn asset_drop_track(rows: &Vec<TrackRow>) -> (track: Option<u64>)
    ensures
        match track {
            Some(id) => exists|i: int|
                0 <= i < rows@.len() && rows@[i].under_pointer && rows@[i].id == id && forall|
                    j: int,
                | 0 <= j < i ==> !rows@[j].under_pointer,
            None => forall|i: int| 0 <= i < rows@.len() ==> !rows@[i].under_pointer,
        },
{
    let mut i: usize = 0;
    while i < rows.len()
        invariant
            i <= rows@.len(),
            forall|j: int| 0 <= j < i ==> !rows@[j].under_pointer,
        decreases rows@.len() - i,
    {
        if rows[i].under_pointer {
            return Some(rows[i].id);
        }
        i = i + 1;
    }
    None
}

} // verus!
