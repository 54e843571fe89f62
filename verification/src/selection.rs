use vstd::prelude::*;

verus! {

/// Which timeline item the editor has selected: a media clip, a text graphic or a shape
/// graphic.
#[derive(Clone, Copy, Debug, PartialEq, Eq, Structural)]
pub struct Selection {
    pub clip: Option<u64>,
    pub text_clip: Option<u64>,
    pub shape_clip: Option<u64>,
}

/// At most one kind of item is selected at a time.
pub open spec fn single_selection(selection: Selection) -> bool {
    &&& selection.clip is Some ==> selection.text_clip is None && selection.shape_clip is None
    &&& selection.text_clip is Some ==> selection.shape_clip is None
}

/// The requests a frame of timeline clips, graphics and their context menus collected.
pub struct SelectionCommands {
    pub clicked_clip_id: Option<u64>,
    pub clicked_text_clip_id: Option<u64>,
    pub clicked_shape_clip_id: Option<u64>,
    pub delete_text_clip_requests: Vec<u64>,
    pub delete_shape_clip_requests: Vec<u64>,
    pub multi_select_requests: Vec<u64>,
    pub copy_requests: Vec<u64>,
    pub cut_requests: Vec<u64>,
    pub copy_formatting_requests: Vec<u64>,
    pub paste_formatting_requests: Vec<u64>,
    pub paste_requested: bool,
    pub merge_into_composite_requested: bool,
    pub create_compound_clip_requested: bool,
    pub open_nested_sequence_request: Option<u64>,
}

/// One change to the project a frame's selection requests make, in order. The clip-id
/// commands act on the named clip, which is the selected clip when they run.
#[derive(Clone, Copy, Debug, PartialEq, Eq, Structural)]
pub enum SelectionAction {
    /// Select this media clip (and its source asset).
    SelectTimelineClip(u64),
    /// Remove this text graphic from every text track.
    DeleteTextClip(u64),
    /// Remove this shape graphic from every shape track.
    DeleteShapeClip(u64),
    ToggleMultiSelect(u64),
    CopyClip(u64),
    CutClip(u64),
    CopyClipFormatting(u64),
    PasteClipFormatting(u64),
    PasteClipAtPlayhead,
    MergeIntoComposite,
    CreateCompoundClipFromSelectedClip,
    OpenNestedSequence(u64),
}

/// The selection after this frame's clicks: each click selects its item and clears the other
/// two kinds; a later click (clip, then text, then shape) wins.
pub open spec fn selection_after_clicks(selection: Selection, commands: SelectionCommands) -> Selection {
    let s1 = match commands.clicked_clip_id {
        Some(id) => Selection { clip: Some(id), text_clip: None, shape_clip: None },
        None => selection,
    };
    let s2 = match commands.clicked_text_clip_id {
        Some(id) => Selection { clip: None, text_clip: Some(id), shape_clip: None },
        None => s1,
    };
    match commands.clicked_shape_clip_id {
        Some(id) => Selection { clip: None, text_clip: None, shape_clip: Some(id) },
        None => s2,
    }
}

/// A selected graphic that gets deleted is deselected.
pub open spec fn deselect_deleted(selected: Option<u64>, deleted: Seq<u64>) -> Option<u64> {
    match selected {
        Some(id) => if deleted.contains(id) {
            None
        } else {
            selected
        },
        None => None,
    }
}

/// Every clip the copy, cut and formatting requests select, in the order they run.
pub open spec fn clip_command_ids(commands: SelectionCommands) -> Seq<u64> {
    commands.copy_requests@ + commands.cut_requests@ + commands.copy_formatting_requests@
        + commands.paste_formatting_requests@
}

/// The selection at the end of the frame.
pub open spec fn selection_after(selection: Selection, commands: SelectionCommands) -> Selection {
    let clicked = selection_after_clicks(selection, commands);
    let ids = clip_command_ids(commands);
    Selection {
        clip: if ids.len() > 0 {
            Some(ids.last())
        } else {
            clicked.clip
        },
        text_clip: deselect_deleted(clicked.text_clip, commands.delete_text_clip_requests@),
        shape_clip: deselect_deleted(clicked.shape_clip, commands.delete_shape_clip_requests@),
    }
}

/// The actions of a list of clip ids, all of one kind.
pub open spec fn each(ids: Seq<u64>, f: spec_fn(u64) -> SelectionAction) -> Seq<SelectionAction> {
    Seq::new(ids.len(), |i: int| f(ids[i]))
}

/// `action` when `condition` holds.
pub open spec fn when(condition: bool, action: SelectionAction) -> Seq<SelectionAction> {
    if condition {
        seq![action]
    } else {
        seq![]
    }
}

/// Every project change of the frame, in order.
pub open spec fn selection_actions(commands: SelectionCommands) -> Seq<SelectionAction> {
    when(
        commands.clicked_clip_id is Some,
        SelectionAction::SelectTimelineClip(commands.clicked_clip_id->0),
    ) + each(commands.delete_text_clip_requests@, |id: u64| SelectionAction::DeleteTextClip(id))
        + each(
        commands.delete_shape_clip_requests@,
        |id: u64| SelectionAction::DeleteShapeClip(id),
    ) + each(commands.multi_select_requests@, |id: u64| SelectionAction::ToggleMultiSelect(id))
        + each(commands.copy_requests@, |id: u64| SelectionAction::CopyClip(id)) + each(
        commands.cut_requests@,
        |id: u64| SelectionAction::CutClip(id),
    ) + each(
        commands.copy_formatting_requests@,
        |id: u64| SelectionAction::CopyClipFormatting(id),
    ) + each(
        commands.paste_formatting_requests@,
        |id: u64| SelectionAction::PasteClipFormatting(id),
    ) + when(commands.paste_requested, SelectionAction::PasteClipAtPlayhead) + when(
        commands.merge_into_composite_requested,
        SelectionAction::MergeIntoComposite,
    ) + when(
        commands.create_compound_clip_requested,
        SelectionAction::CreateCompoundClipFromSelectedClip,
    ) + when(
        commands.open_nested_sequence_request is Some,
        SelectionAction::OpenNestedSequence(commands.open_nested_sequence_request->0),
    )
}

/// Which list a run of clip-id actions comes from.
#[derive(Clone, Copy, Debug, PartialEq, Eq, Structural)]
enum IdList {
    DeleteText,
    DeleteShape,
    MultiSelect,
    Copy,
    Cut,
    CopyFormatting,
    PasteFormatting,
}

spec fn id_list_action(kind: IdList) -> spec_fn(u64) -> SelectionAction {
    match kind {
        IdList::DeleteText => |id: u64| SelectionAction::DeleteTextClip(id),
        IdList::DeleteShape => |id: u64| SelectionAction::DeleteShapeClip(id),
        IdList::MultiSelect => |id: u64| SelectionAction::ToggleMultiSelect(id),
        IdList::Copy => |id: u64| SelectionAction::CopyClip(id),
        IdList::Cut => |id: u64| SelectionAction::CutClip(id),
        IdList::CopyFormatting => |id: u64| SelectionAction::CopyClipFormatting(id),
        IdList::PasteFormatting => |id: u64| SelectionAction::PasteClipFormatting(id),
    }
}

/// Appends one action per id.
fn push_each(actions: &mut Vec<SelectionAction>, ids: &Vec<u64>, kind: IdList)
    ensures
        final(actions)@ == old(actions)@ + each(ids@, id_list_action(kind)),
{
    let ghost start = actions@;
    let mut i: usize = 0;
    while i < ids.len()
        invariant
            i <= ids@.len(),
            actions@ == start + each(ids@.subrange(0, i as int), id_list_action(kind)),
        decreases ids@.len() - i,
    {
        let id = ids[i];
        let action = match kind {
            IdList::DeleteText => SelectionAction::DeleteTextClip(id),
            IdList::DeleteShape => SelectionAction::DeleteShapeClip(id),
            IdList::MultiSelect => SelectionAction::ToggleMultiSelect(id),
            IdList::Copy => SelectionAction::CopyClip(id),
            IdList::Cut => SelectionAction::CutClip(id),
            IdList::CopyFormatting => SelectionAction::CopyClipFormatting(id),
            IdList::PasteFormatting => SelectionAction::PasteClipFormatting(id),
        };
        actions.push(action);
        i = i + 1;
        assert(actions@ =~= start + each(ids@.subrange(0, i as int), id_list_action(kind)));
    }
    assert(ids@.subrange(0, ids@.len() as int) =~= ids@);
}

/// Appends `action` when `condition` holds.
fn push_when(actions: &mut Vec<SelectionAction>, condition: bool, action: SelectionAction)
    ensures
        final(actions)@ == old(actions)@ + when(condition, action),
{
    if condition {
        actions.push(action);
    } else {
        assert(old(actions)@ + when(condition, action) =~= old(actions)@);
    }
}

/// Clears `selected` if some id in `deleted` names it.
fn deselect_if_deleted(selected: Option<u64>, deleted: &Vec<u64>) -> (after: Option<u64>)
    ensures
        after == deselect_deleted(selected, deleted@),
{
    let mut after = selected;
    let mut i: usize = 0;
    while i < deleted.len()
        invariant
            i <= deleted@.len(),
            after == deselect_deleted(selected, deleted@.subrange(0, i as int)),
        decreases deleted@.len() - i,
    {
        let ghost prev = deleted@.subrange(0, i as int);
        let x = deleted[i];
        if after == Some(x) {
            after = None;
        }
        proof {
            let next = deleted@.subrange(0, i + 1);
            assert(next =~= prev.push(x));
            if let Some(id) = selected {
                if prev.contains(id) {
                    let w = choose|w: int| 0 <= w < prev.len() && prev[w] == id;
                    assert(next[w] == id);
                    assert(next.contains(id));
                } else if x == id {
                    assert(next[prev.len() as int] == id);
                    assert(next.contains(id));
                } else {
                    assert forall|w: int| 0 <= w < next.len() implies next[w] != id by {
                        if w < prev.len() {
                            assert(next[w] == prev[w]);
                        }
                    }
                    assert(!next.contains(id));
                }
            }
        }
        i = i + 1;
    }
    assert(deleted@.subrange(0, deleted@.len() as int) =~= deleted@);
    after
}

/// The last id of the first non-empty list, scanning from the back.
fn last_clip_command_id(commands: &SelectionCommands) -> (last: Option<u64>)
    ensures
        clip_command_ids(*commands).len() > 0 ==> last == Some(clip_command_ids(*commands).last()),
        clip_command_ids(*commands).len() == 0 ==> last is None,
{
    if commands.paste_formatting_requests.len() > 0 {
        Some(commands.paste_formatting_requests[commands.paste_formatting_requests.len() - 1])
    } else if commands.copy_formatting_requests.len() > 0 {
        Some(commands.copy_formatting_requests[commands.copy_formatting_requests.len() - 1])
    } else if commands.cut_requests.len() > 0 {
        Some(commands.cut_requests[commands.cut_requests.len() - 1])
    } else if commands.copy_requests.len() > 0 {
        Some(commands.copy_requests[commands.copy_requests.len() - 1])
    } else {
        None
    }
}

/// Applies a frame's selection requests: updates the selection, and returns, in order, every
/// change the project must make.
pub fn apply_selection_commands(selection: &mut Selection, commands: &SelectionCommands) -> (actions:
    Vec<SelectionAction>)
    ensures
        *final(selection) == selection_after(*old(selection), *commands),
        forall|id: u64|
            commands.delete_text_clip_requests@.contains(id) ==> final(selection).text_clip
                != Some(id),
        forall|id: u64|
            commands.delete_shape_clip_requests@.contains(id) ==> final(selection).shape_clip
                != Some(id),
        actions@ == selection_actions(*commands),
{
    if let Some(id) = commands.clicked_clip_id {
        selection.text_clip = None;
        selection.shape_clip = None;
        selection.clip = Some(id);
    }
    if let Some(id) = commands.clicked_text_clip_id {
        selection.clip = None;
        selection.shape_clip = None;
        selection.text_clip = Some(id);
    }
    if let Some(id) = commands.clicked_shape_clip_id {
        selection.clip = None;
        selection.text_clip = None;
        selection.shape_clip = Some(id);
    }
    selection.text_clip = deselect_if_deleted(selection.text_clip, &commands.delete_text_clip_requests);
    selection.shape_clip = deselect_if_deleted(
        selection.shape_clip,
        &commands.delete_shape_clip_requests,
    );
    if let Some(id) = last_clip_command_id(commands) {
        selection.clip = Some(id);
    }

    let mut actions: Vec<SelectionAction> = Vec::new();
    let clicked = match commands.clicked_clip_id {
        Some(id) => id,
        None => 0,
    };
    push_when(
        &mut actions,
        commands.clicked_clip_id.is_some(),
        SelectionAction::SelectTimelineClip(clicked),
    );
    push_each(&mut actions, &commands.delete_text_clip_requests, IdList::DeleteText);
    push_each(&mut actions, &commands.delete_shape_clip_requests, IdList::DeleteShape);
    push_each(&mut actions, &commands.multi_select_requests, IdList::MultiSelect);
    push_each(&mut actions, &commands.copy_requests, IdList::Copy);
    push_each(&mut actions, &commands.cut_requests, IdList::Cut);
    push_each(&mut actions, &commands.copy_formatting_requests, IdList::CopyFormatting);
    push_each(&mut actions, &commands.paste_formatting_requests, IdList::PasteFormatting);
    push_when(&mut actions, commands.paste_requested, SelectionAction::PasteClipAtPlayhead);
    push_when(
        &mut actions,
        commands.merge_into_composite_requested,
        SelectionAction::MergeIntoComposite,
    );
    push_when(
        &mut actions,
        commands.create_compound_clip_requested,
        SelectionAction::CreateCompoundClipFromSelectedClip,
    );
    let nested = match commands.open_nested_sequence_request {
        Some(id) => id,
        None => 0,
    };
    push_when(
        &mut actions,
        commands.open_nested_sequence_request.is_some(),
        SelectionAction::OpenNestedSequence(nested),
    );
    proof {
        assert(actions@ =~= selection_actions(*commands));
        lemma_deleted_graphics_are_deselected(*old(selection), *commands);
    }
    actions
}

/// A text or shape graphic deleted this frame is never left selected, whatever was selected or
/// clicked; a graphic clicked last this frame (after any media-clip click) and not deleted is
/// selected.
pub proof fn lemma_deleted_graphics_are_deselected(selection: Selection, commands: SelectionCommands)
    ensures
        forall|id: u64|
            commands.delete_text_clip_requests@.contains(id) ==> selection_after(
                selection,
                commands,
            ).text_clip != Some(id),
        forall|id: u64|
            commands.delete_shape_clip_requests@.contains(id) ==> selection_after(
                selection,
                commands,
            ).shape_clip != Some(id),
        forall|id: u64|
            commands.clicked_shape_clip_id == Some(id)
                && !commands.delete_shape_clip_requests@.contains(id) ==> selection_after(
                selection,
                commands,
            ).shape_clip == Some(id),
        forall|id: u64|
            commands.clicked_text_clip_id == Some(id) && commands.clicked_shape_clip_id is None
                && !commands.delete_text_clip_requests@.contains(id) ==> selection_after(
                selection,
                commands,
            ).text_clip == Some(id),
{
}

/// Only one kind of item is ever selected: a frame's requests keep that so whenever its clip
/// commands (copy, cut, formatting) come, as the clip context menu sends them, with a click on
/// a media clip and no click on a graphic.
pub proof fn lemma_selection_stays_single(selection: Selection, commands: SelectionCommands)
    requires
        single_selection(selection),
        clip_command_ids(commands).len() == 0 || (commands.clicked_clip_id is Some
            && commands.clicked_text_clip_id is None && commands.clicked_shape_clip_id is None),
    ensures
        single_selection(selection_after(selection, commands)),
{
}

} // verus!
