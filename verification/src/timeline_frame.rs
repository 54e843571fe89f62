use vstd::prelude::*;

use crate::shortcuts::EditorTool;
use crate::text_props::GraphicKind;

verus! {

/// What happened this frame to one media clip's block on the timeline, in row order.
#[derive(Clone, Copy, Debug, PartialEq, Eq, Structural)]
pub struct ClipBodyEvent {
    pub clip_id: u64,
    /// The track the block sits on.
    pub track_id: u64,
    /// The sequence this compound clip opens, if it is one.
    pub nested_sequence_id: Option<u64>,
    /// The block's body was clicked.
    pub clicked: bool,
    /// The block's body was double-clicked.
    pub double_clicked: bool,
    /// Where the click landed is known (a Razor cut needs it).
    pub pointer_known: bool,
    /// A drag of the body or of either trim edge started.
    pub drag_started: bool,
    /// The block's context menu is open (which selects the clip).
    pub menu_open: bool,
    /// The context menu's "Open compound clip" entry was chosen.
    pub menu_opens_compound: bool,
}

/// What happened this frame to one text or shape graphic's block on the timeline.
#[derive(Clone, Copy, Debug, PartialEq, Eq, Structural)]
pub struct GraphicBlockEvent {
    pub kind: GraphicKind,
    pub id: u64,
    /// The block was clicked.
    pub clicked: bool,
    /// Its context menu's "Delete" entry was chosen.
    pub delete_requested: bool,
    /// A drag of the block or of either trim edge started.
    pub drag_started: bool,
}

/// What a click on a clip's body asks for.
#[derive(Clone, Copy, Debug, PartialEq, Eq, Structural)]
pub enum ClipClick {
    Nothing,
    /// Split the clip on this track where the click landed.
    RazorSplit(u64),
    /// Add the clip to, or take it out of, the multi-selection.
    ToggleMultiSelect(u64),
    /// Select just this clip.
    Select(u64),
}

/// Under the Razor tool a click cuts the clip where it landed; otherwise Ctrl-click toggles
/// the clip in the multi-selection and a plain click selects it.
pub open spec fn clip_click_for(tool: EditorTool, ctrl: bool, event: ClipBodyEvent) -> ClipClick {
    if !event.clicked {
        ClipClick::Nothing
    } else if tool == EditorTool::Razor {
        if event.pointer_known {
            ClipClick::RazorSplit(event.track_id)
        } else {
            ClipClick::Nothing
        }
    } else if ctrl {
        ClipClick::ToggleMultiSelect(event.clip_id)
    } else {
        ClipClick::Select(event.clip_id)
    }
}

/// What a click on this clip body asks for, with `tool` active and Ctrl held or not.
pub fn clip_click(tool: EditorTool, ctrl: bool, event: &ClipBodyEvent) -> (click: ClipClick)
    ensures
        click == clip_click_for(tool, ctrl, *event),
{
    if !event.clicked {
        ClipClick::Nothing
    } else if tool == EditorTool::Razor {
        if event.pointer_known {
            ClipClick::RazorSplit(event.track_id)
        } else {
            ClipClick::Nothing
        }
    } else if ctrl {
        ClipClick::ToggleMultiSelect(event.clip_id)
    } else {
        ClipClick::Select(event.clip_id)
    }
}

/// The tracks the first `n` events cut with the Razor tool, in order.
pub open spec fn razor_splits_upto(
    tool: EditorTool,
    ctrl: bool,
    events: Seq<ClipBodyEvent>,
    n: int,
) -> Seq<u64>
    decreases n,
{
    if n <= 0 {
        seq![]
    } else {
        razor_splits_upto(tool, ctrl, events, n - 1) + match clip_click_for(
            tool,
            ctrl,
            events[n - 1],
        ) {
            ClipClick::RazorSplit(track_id) => seq![track_id],
            _ => seq![],
        }
    }
}

/// The clips the first `n` events toggle in the multi-selection, in order.
pub open spec fn multi_select_upto(
    tool: EditorTool,
    ctrl: bool,
    events: Seq<ClipBodyEvent>,
    n: int,
) -> Seq<u64>
    decreases n,
{
    if n <= 0 {
        seq![]
    } else {
        multi_select_upto(tool, ctrl, events, n - 1) + match clip_click_for(
            tool,
            ctrl,
            events[n - 1],
        ) {
            ClipClick::ToggleMultiSelect(clip_id) => seq![clip_id],
            _ => seq![],
        }
    }
}

/// Whether this event selects its clip: a plain click does, and so does opening its context
/// menu.
pub open spec fn selects_clip(tool: EditorTool, ctrl: bool, event: ClipBodyEvent) -> bool {
    event.menu_open || clip_click_for(tool, ctrl, event) is Select
}

/// The clip the last of the first `n` events that selects a clip selects.
pub open spec fn clicked_clip_upto(
    tool: EditorTool,
    ctrl: bool,
    events: Seq<ClipBodyEvent>,
    n: int,
) -> Option<u64>
    decreases n,
{
    if n <= 0 {
        None
    } else if selects_clip(tool, ctrl, events[n - 1]) {
        Some(events[n - 1].clip_id)
    } else {
        clicked_clip_upto(tool, ctrl, events, n - 1)
    }
}

/// Whether this event opens its compound clip's sequence: a double click, or the context
/// menu's "Open compound clip", on a clip that is a compound clip.
pub open spec fn opens_nested(event: ClipBodyEvent) -> bool {
    (event.double_clicked || event.menu_opens_compound) && event.nested_sequence_id is Some
}

/// The sequence the last of the first `n` events that opens a compound clip opens.
pub open spec fn nested_sequence_upto(events: Seq<ClipBodyEvent>, n: int) -> Option<u64>
    decreases n,
{
    if n <= 0 {
        None
    } else if opens_nested(events[n - 1]) {
        events[n - 1].nested_sequence_id
    } else {
        nested_sequence_upto(events, n - 1)
    }
}

/// The graphic of `kind` the last click among the first `n` graphic events selects.
pub open spec fn clicked_graphic_upto(
    kind: GraphicKind,
    graphics: Seq<GraphicBlockEvent>,
    n: int,
) -> Option<u64>
    decreases n,
{
    if n <= 0 {
        None
    } else if graphics[n - 1].kind == kind && graphics[n - 1].clicked {
        Some(graphics[n - 1].id)
    } else {
        clicked_graphic_upto(kind, graphics, n - 1)
    }
}

/// The graphics of `kind` whose deletion the first `n` graphic events ask for, in order.
pub open spec fn graphic_deletes_upto(
    kind: GraphicKind,
    graphics: Seq<GraphicBlockEvent>,
    n: int,
) -> Seq<u64>
    decreases n,
{
    if n <= 0 {
        seq![]
    } else {
        graphic_deletes_upto(kind, graphics, n - 1) + if graphics[n - 1].kind == kind
            && graphics[n - 1].delete_requested {
            seq![graphics[n - 1].id]
        } else {
            seq![]
        }
    }
}

/// Some media clip or graphic starts a drag.
pub open spec fn any_drag_started(
    events: Seq<ClipBodyEvent>,
    graphics: Seq<GraphicBlockEvent>,
) -> bool {
    ||| exists|i: int| 0 <= i < events.len() && #[trigger] events[i].drag_started
    ||| exists|i: int| 0 <= i < graphics.len() && #[trigger] graphics[i].drag_started
}

/// What the media clips and graphics of one timeline frame ask of the editor through their
/// clicks, double clicks, context menus and drag starts.
pub struct TimelineFrameRequests {
    /// The tracks to cut with the Razor tool, in row order.
    pub razor_splits: Vec<u64>,
    /// The clips to toggle in the multi-selection, in row order.
    pub multi_select: Vec<u64>,
    /// The media clip to select: the last one plainly clicked or whose context menu is open.
    pub clicked_clip: Option<u64>,
    /// The nested sequence to open (the last compound clip double-clicked or opened from its
    /// context menu).
    pub open_nested_sequence: Option<u64>,
    /// The text graphic to select (the last one clicked).
    pub clicked_text_clip: Option<u64>,
    /// The shape graphic to select (the last one clicked).
    pub clicked_shape_clip: Option<u64>,
    /// The text graphics to delete, in row order.
    pub delete_text_clips: Vec<u64>,
    /// The shape graphics to delete, in row order.
    pub delete_shape_clips: Vec<u64>,
    /// A drag of some media clip or graphic started, so the frame takes an undo snapshot
    /// before applying trims and moves.
    pub drag_started: bool,
}

/// Gathers what this frame's media-clip events and graphic events (each in row order) ask for,
/// with `tool` active and Ctrl held or not.
pub fn timeline_frame_requests(
    tool: EditorTool,
    ctrl: bool,
    events: &Vec<ClipBodyEvent>,
    graphics: &Vec<GraphicBlockEvent>,
) -> (requests: TimelineFrameRequests)
    ensures
        requests.razor_splits@ == razor_splits_upto(tool, ctrl, events@, events@.len() as int),
        requests.multi_select@ == multi_select_upto(tool, ctrl, events@, events@.len() as int),
        requests.clicked_clip == clicked_clip_upto(tool, ctrl, events@, events@.len() as int),
        requests.open_nested_sequence == nested_sequence_upto(events@, events@.len() as int),
        requests.clicked_text_clip == clicked_graphic_upto(
            GraphicKind::Text,
            graphics@,
            graphics@.len() as int,
        ),
        requests.clicked_shape_clip == clicked_graphic_upto(
            GraphicKind::Shape,
            graphics@,
            graphics@.len() as int,
        ),
        requests.delete_text_clips@ == graphic_deletes_upto(
            GraphicKind::Text,
            graphics@,
            graphics@.len() as int,
        ),
        requests.delete_shape_clips@ == graphic_deletes_upto(
            GraphicKind::Shape,
            graphics@,
            graphics@.len() as int,
        ),
        requests.drag_started == any_drag_started(events@, graphics@),
{
    let mut razor_splits: Vec<u64> = Vec::new();
    let mut multi_select: Vec<u64> = Vec::new();
    let mut clicked_clip: Option<u64> = None;
    let mut open_nested_sequence: Option<u64> = None;
    let mut clip_drag_started = false;
    let mut i: usize = 0;
    while i < events.len()
        invariant
            i <= events@.len(),
            razor_splits@ == razor_splits_upto(tool, ctrl, events@, i as int),
            multi_select@ == multi_select_upto(tool, ctrl, events@, i as int),
            clicked_clip == clicked_clip_upto(tool, ctrl, events@, i as int),
            open_nested_sequence == nested_sequence_upto(events@, i as int),
            clip_drag_started == (exists|j: int| 0 <= j < i && #[trigger] events@[j].drag_started),
        decreases events@.len() - i,
    {
        let event = &events[i];
        if event.menu_open {
            clicked_clip = Some(event.clip_id);
        }
        let click = clip_click(tool, ctrl, event);
        let ghost before_razor = razor_splits@;
        let ghost before_multi = multi_select@;
        match click {
            ClipClick::RazorSplit(track_id) => {
                razor_splits.push(track_id);
            },
            ClipClick::ToggleMultiSelect(clip_id) => {
                multi_select.push(clip_id);
            },
            ClipClick::Select(clip_id) => {
                clicked_clip = Some(clip_id);
            },
            ClipClick::Nothing => {},
        }
        if (event.double_clicked || event.menu_opens_compound) && event.nested_sequence_id.is_some() {
            open_nested_sequence = event.nested_sequence_id;
        }
        if event.drag_started {
            clip_drag_started = true;
        }
        proof {
            let k = i as int;
            assert(events@[k] == *event);
            match click {
                ClipClick::RazorSplit(track_id) => {
                    assert(razor_splits@ =~= before_razor + seq![track_id]);
                    assert(multi_select@ =~= before_multi + Seq::<u64>::empty());
                },
                ClipClick::ToggleMultiSelect(clip_id) => {
                    assert(razor_splits@ =~= before_razor + Seq::<u64>::empty());
                    assert(multi_select@ =~= before_multi + seq![clip_id]);
                },
                _ => {
                    assert(razor_splits@ =~= before_razor + Seq::<u64>::empty());
                    assert(multi_select@ =~= before_multi + Seq::<u64>::empty());
                },
            }
            if event.drag_started {
                assert(events@[k].drag_started);
            }
        }
        i = i + 1;
    }
    let mut clicked_text_clip: Option<u64> = None;
    let mut clicked_shape_clip: Option<u64> = None;
    let mut delete_text_clips: Vec<u64> = Vec::new();
    let mut delete_shape_clips: Vec<u64> = Vec::new();
    let mut graphic_drag_started = false;
    let mut g: usize = 0;
    while g < graphics.len()
        invariant
            g <= graphics@.len(),
            clicked_text_clip == clicked_graphic_upto(GraphicKind::Text, graphics@, g as int),
            clicked_shape_clip == clicked_graphic_upto(GraphicKind::Shape, graphics@, g as int),
            delete_text_clips@ == graphic_deletes_upto(GraphicKind::Text, graphics@, g as int),
            delete_shape_clips@ == graphic_deletes_upto(GraphicKind::Shape, graphics@, g as int),
            graphic_drag_started == (exists|j: int|
                0 <= j < g && #[trigger] graphics@[j].drag_started),
        decreases graphics@.len() - g,
    {
        let graphic = &graphics[g];
        let ghost before_text = delete_text_clips@;
        let ghost before_shape = delete_shape_clips@;
        match graphic.kind {
            GraphicKind::Text => {
                if graphic.clicked {
                    clicked_text_clip = Some(graphic.id);
                }
                if graphic.delete_requested {
                    delete_text_clips.push(graphic.id);
                }
            },
            GraphicKind::Shape => {
                if graphic.clicked {
                    clicked_shape_clip = Some(graphic.id);
                }
                if graphic.delete_requested {
                    delete_shape_clips.push(graphic.id);
                }
            },
        }
        if graphic.drag_started {
            graphic_drag_started = true;
        }
        proof {
            let k = g as int;
            assert(graphics@[k] == *graphic);
            if graphic.kind == GraphicKind::Text && graphic.delete_requested {
                assert(delete_text_clips@ =~= before_text + seq![graphic.id]);
            } else {
                assert(delete_text_clips@ =~= before_text + Seq::<u64>::empty());
            }
            if graphic.kind == GraphicKind::Shape && graphic.delete_requested {
                assert(delete_shape_clips@ =~= before_shape + seq![graphic.id]);
            } else {
                assert(delete_shape_clips@ =~= before_shape + Seq::<u64>::empty());
            }
            if graphic.drag_started {
                assert(graphics@[k].drag_started);
            }
        }
        g = g + 1;
    }
    TimelineFrameRequests {
        razor_splits,
        multi_select,
        clicked_clip,
        open_nested_sequence,
        clicked_text_clip,
        clicked_shape_clip,
        delete_text_clips,
        delete_shape_clips,
        drag_started: clip_drag_started || graphic_drag_started,
    }
}

/// One step of applying a timeline frame's deferred requests, in the order the editor runs them.
#[derive(Clone, Copy, Debug, PartialEq, Eq, Structural)]
pub enum TimelineFrameStep {
    ApplySelectionCommands,
    ApplyTrackCommands,
    ApplyClipCommands,
    /// Take one undo snapshot for the drags that started this frame.
    PushUndoSnapshot,
    /// Apply the trims and moves the drags asked for.
    ApplyClipInteractions,
    ApplyThumbnailWork,
    ApplyPendingAssetDrop,
}

/// The selection, track and clip commands run first; when a drag started, one undo snapshot
/// is taken before the trims and moves are applied; thumbnails and a pending media drop come
/// last.
pub open spec fn timeline_frame_steps_for(drag_started: bool) -> Seq<TimelineFrameStep> {
    seq![
        TimelineFrameStep::ApplySelectionCommands,
        TimelineFrameStep::ApplyTrackCommands,
        TimelineFrameStep::ApplyClipCommands,
    ] + (if drag_started {
        seq![TimelineFrameStep::PushUndoSnapshot]
    } else {
        seq![]
    }) + seq![
        TimelineFrameStep::ApplyClipInteractions,
        TimelineFrameStep::ApplyThumbnailWork,
        TimelineFrameStep::ApplyPendingAssetDrop,
    ]
}

/// The order in which a timeline frame applies what it collected.
pub fn timeline_frame_steps(drag_started: bool) -> (steps: Vec<TimelineFrameStep>)
    ensures
        steps@ == timeline_frame_steps_for(drag_started),
{
    let mut steps: Vec<TimelineFrameStep> = Vec::new();
    steps.push(TimelineFrameStep::ApplySelectionCommands);
    steps.push(TimelineFrameStep::ApplyTrackCommands);
    steps.push(TimelineFrameStep::ApplyClipCommands);
    if drag_started {
        steps.push(TimelineFrameStep::PushUndoSnapshot);
    }
    steps.push(TimelineFrameStep::ApplyClipInteractions);
    steps.push(TimelineFrameStep::ApplyThumbnailWork);
    steps.push(TimelineFrameStep::ApplyPendingAssetDrop);
    assert(steps@ =~= timeline_frame_steps_for(drag_started));
    steps
}

/// A frame in which a drag started takes exactly one undo snapshot, and takes it before the
/// trims and moves are applied; a frame without one takes none.
pub proof fn lemma_one_snapshot_before_interactions(drag_started: bool)
    ensures
        drag_started ==> exists|p: int, q: int|
            0 <= p < q < timeline_frame_steps_for(drag_started).len()
                && #[trigger] timeline_frame_steps_for(drag_started)[p]
                == TimelineFrameStep::PushUndoSnapshot && #[trigger] timeline_frame_steps_for(
                drag_started,
            )[q] == TimelineFrameStep::ApplyClipInteractions,
        forall|p: int, q: int|
            0 <= p < q < timeline_frame_steps_for(drag_started).len() && #[trigger]
                timeline_frame_steps_for(drag_started)[p] == TimelineFrameStep::PushUndoSnapshot
                ==> #[trigger] timeline_frame_steps_for(drag_started)[q]
                != TimelineFrameStep::PushUndoSnapshot,
        !drag_started ==> forall|p: int|
            0 <= p < timeline_frame_steps_for(drag_started).len() ==> #[trigger]
                timeline_frame_steps_for(drag_started)[p] != TimelineFrameStep::PushUndoSnapshot,
{
    let s = timeline_frame_steps_for(drag_started);
    if drag_started {
        assert(s =~= seq![
            TimelineFrameStep::ApplySelectionCommands,
            TimelineFrameStep::ApplyTrackCommands,
            TimelineFrameStep::ApplyClipCommands,
            TimelineFrameStep::PushUndoSnapshot,
            TimelineFrameStep::ApplyClipInteractions,
            TimelineFrameStep::ApplyThumbnailWork,
            TimelineFrameStep::ApplyPendingAssetDrop,
        ]);
        assert(s[3] == TimelineFrameStep::PushUndoSnapshot);
        assert(s[4] == TimelineFrameStep::ApplyClipInteractions);
    } else {
        assert(s =~= seq![
            TimelineFrameStep::ApplySelectionCommands,
            TimelineFrameStep::ApplyTrackCommands,
            TimelineFrameStep::ApplyClipCommands,
            TimelineFrameStep::ApplyClipInteractions,
            TimelineFrameStep::ApplyThumbnailWork,
            TimelineFrameStep::ApplyPendingAssetDrop,
        ]);
    }
}

} // verus!
