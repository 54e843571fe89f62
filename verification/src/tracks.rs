use std::collections::HashSet;
use vstd::prelude::*;

use crate::labels::AudioRole;

verus! {

/// The timeline tracks whose rows are collapsed to a thin strip.
pub struct CollapsedTracks {
    ids: HashSet<u64>,
}

impl View for CollapsedTracks {
    type V = Set<u64>;

    closed spec fn view(&self) -> Set<u64> {
        self.ids@
    }
}

impl CollapsedTracks {
    /// No collapsed tracks.
    pub fn new() -> (tracks: Self)
        ensures
            tracks@ == Set::<u64>::empty(),
    {
        CollapsedTracks { ids: HashSet::new() }
    }

    /// Whether the track with this id is collapsed.
    pub fn contains(&self, track_id: u64) -> (collapsed: bool)
        ensures
            collapsed == self@.contains(track_id),
    {
        broadcast use vstd::std_specs::hash::group_hash_axioms;

        self.ids.contains(&track_id)
    }

    /// Collapses an expanded track, or expands a collapsed one.
    pub fn toggle(&mut self, track_id: u64)
        ensures
            final(self)@ == (if old(self)@.contains(track_id) {
                old(self)@.remove(track_id)
            } else {
                old(self)@.insert(track_id)
            }),
    {
        broadcast use vstd::std_specs::hash::group_hash_axioms;

        if !self.ids.remove(&track_id) {
            self.ids.insert(track_id);
        }
    }
}

/// Toggling a track's collapsed state twice leaves the collapsed set as it was.
pub proof fn lemma_toggle_collapsed_twice(collapsed: Set<u64>, track_id: u64)
    ensures
        ({
            let once = if collapsed.contains(track_id) {
                collapsed.remove(track_id)
            } else {
                collapsed.insert(track_id)
            };
            let twice = if once.contains(track_id) {
                once.remove(track_id)
            } else {
                once.insert(track_id)
            };
            twice == collapsed
        }),
{
    let once = if collapsed.contains(track_id) {
        collapsed.remove(track_id)
    } else {
        collapsed.insert(track_id)
    };
    let twice = if once.contains(track_id) {
        once.remove(track_id)
    } else {
        once.insert(track_id)
    };
    assert(twice =~= collapsed);
}

/// What deleting a track looks at: whether it still holds any media, text or shape clip.
#[derive(Clone, Copy, Debug, PartialEq, Eq, Structural)]
pub struct TrackContent {
    pub id: u64,
    pub has_clips: bool,
}

/// The requests a frame of track headers and context menus collected. Razor splits are named
/// by the track they cut; the cut's time stays with the caller, found again by the request's
/// index.
pub struct TrackCommands {
    pub toggle_visibility: Vec<u64>,
    pub toggle_lock: Vec<u64>,
    pub toggle_collapsed: Vec<u64>,
    pub audio_roles: Vec<(u64, AudioRole)>,
    pub color_labels: Vec<(u64, Option<[u8; 3]>)>,
    pub renames: Vec<(u64, String)>,
    pub duplicates: Vec<u64>,
    pub move_up: Vec<u64>,
    pub move_down: Vec<u64>,
    pub razor_split_tracks: Vec<u64>,
    pub deletes: Vec<(u64, String)>,
}

/// One change to make to the project, in the order it must be made.
#[derive(Debug, PartialEq, Eq)]
pub enum TrackAction {
    ToggleVisibility(u64),
    ToggleLock(u64),
    SetAudioRole(u64, AudioRole),
    SetColorLabel(u64, Option<[u8; 3]>),
    /// Open the rename dialog for this track, prefilled with its current name.
    BeginRename(u64, String),
    Duplicate(u64),
    MoveUp(u64),
    MoveDown(u64),
    /// Split the clip under the cut of the razor request with this index.
    RazorSplit(usize),
    /// Ask the user to confirm deleting a track that still holds clips.
    ConfirmDelete(u64, String),
    /// Delete an empty track outright.
    Delete(u64),
}

/// Which id-only request list a run of actions comes from.
#[derive(Clone, Copy, Debug, PartialEq, Eq, Structural)]
pub enum TrackIdRequest {
    ToggleVisibility,
    ToggleLock,
    Duplicate,
    MoveUp,
    MoveDown,
}

/// The action an id-only request becomes.
pub open spec fn id_action(kind: TrackIdRequest, id: u64) -> TrackAction {
    match kind {
        TrackIdRequest::ToggleVisibility => TrackAction::ToggleVisibility(id),
        TrackIdRequest::ToggleLock => TrackAction::ToggleLock(id),
        TrackIdRequest::Duplicate => TrackAction::Duplicate(id),
        TrackIdRequest::MoveUp => TrackAction::MoveUp(id),
        TrackIdRequest::MoveDown => TrackAction::MoveDown(id),
    }
}

/// The actions of a list of id-only requests.
pub open spec fn id_actions(kind: TrackIdRequest, ids: Seq<u64>) -> Seq<TrackAction> {
    Seq::new(ids.len(), |i: int| id_action(kind, ids[i]))
}

/// Whether the track with this id still holds clips.
pub open spec fn has_content(contents: Seq<TrackContent>, id: u64) -> bool {
    exists|i: int| 0 <= i < contents.len() && contents[i].id == id && contents[i].has_clips
}

/// A delete request asks for confirmation when the track still holds clips, and deletes it
/// outright otherwise. Deleting an empty track outright never changes whether any track holds
/// clips, so every request of a frame is judged against the frame's starting contents.
pub open spec fn delete_action(contents: Seq<TrackContent>, request: (u64, String)) -> TrackAction {
    if has_content(contents, request.0) {
        TrackAction::ConfirmDelete(request.0, request.1)
    } else {
        TrackAction::Delete(request.0)
    }
}

/// The tracks left after deleting every track with this id.
pub open spec fn without_track(contents: Seq<TrackContent>, deleted: u64) -> Seq<TrackContent> {
    contents.filter(|t: TrackContent| t.id != deleted)
}

/// Deleting a track that holds no clips leaves every id's "still holds clips" answer as it
/// was, so a frame's delete requests can all be judged against its starting contents.
pub proof fn lemma_deleting_empty_track_keeps_contents(
    contents: Seq<TrackContent>,
    deleted: u64,
    id: u64,
)
    requires
        !has_content(contents, deleted),
    ensures
        has_content(without_track(contents, deleted), id) == has_content(contents, id),
{
    let pred = |t: TrackContent| t.id != deleted;
    let after = contents.filter(pred);
    if has_content(contents, id) {
        let i = choose|i: int| 0 <= i < contents.len() && contents[i].id == id && contents[i].has_clips;
        assert(id != deleted);
        contents.lemma_filter_contains(pred, i);
        let w = choose|w: int| 0 <= w < after.len() && after[w] == contents[i];
        assert(after[w].id == id && after[w].has_clips);
    }
    if has_content(after, id) {
        let w = choose|w: int| 0 <= w < after.len() && after[w].id == id && after[w].has_clips;
        assert(after.contains(after[w]));
        contents.lemma_filter_contains_rev(pred, after[w]);
        let i = choose|i: int| 0 <= i < contents.len() && contents[i] == after[w];
        assert(contents[i].id == id && contents[i].has_clips);
    }
}

/// Every action a frame's track requests become, in order: visibility, lock, audio role,
/// color label, rename, duplicate, move up, move down, razor split, delete.
pub open spec fn track_actions(
    commands: TrackCommands,
    contents: Seq<TrackContent>,
) -> Seq<TrackAction> {
    id_actions(TrackIdRequest::ToggleVisibility, commands.toggle_visibility@) + id_actions(
        TrackIdRequest::ToggleLock,
        commands.toggle_lock@,
    ) + Seq::new(
        commands.audio_roles@.len(),
        |i: int| TrackAction::SetAudioRole(commands.audio_roles@[i].0, commands.audio_roles@[i].1),
    ) + Seq::new(
        commands.color_labels@.len(),
        |i: int|
            TrackAction::SetColorLabel(commands.color_labels@[i].0, commands.color_labels@[i].1),
    ) + Seq::new(
        commands.renames@.len(),
        |i: int| TrackAction::BeginRename(commands.renames@[i].0, commands.renames@[i].1),
    ) + id_actions(TrackIdRequest::Duplicate, commands.duplicates@) + id_actions(
        TrackIdRequest::MoveUp,
        commands.move_up@,
    ) + id_actions(TrackIdRequest::MoveDown, commands.move_down@) + Seq::new(
        commands.razor_split_tracks@.len(),
        |i: int| TrackAction::RazorSplit(i as usize),
    ) + Seq::new(commands.deletes@.len(), |i: int| delete_action(contents, commands.deletes@[i]))
}

/// Appends the actions of an id-only request list.
fn push_id_actions(actions: &mut Vec<TrackAction>, kind: TrackIdRequest, ids: &Vec<u64>)
    ensures
        final(actions)@ == old(actions)@ + id_actions(kind, ids@),
{
    let ghost start = actions@;
    let mut i: usize = 0;
    while i < ids.len()
        invariant
            i <= ids@.len(),
            actions@ == start + id_actions(kind, ids@.subrange(0, i as int)),
        decreases ids@.len() - i,
    {
        let id = ids[i];
        let action = match kind {
            TrackIdRequest::ToggleVisibility => TrackAction::ToggleVisibility(id),
            TrackIdRequest::ToggleLock => TrackAction::ToggleLock(id),
            TrackIdRequest::Duplicate => TrackAction::Duplicate(id),
            TrackIdRequest::MoveUp => TrackAction::MoveUp(id),
            TrackIdRequest::MoveDown => TrackAction::MoveDown(id),
        };
        actions.push(action);
        i = i + 1;
        assert(actions@ =~= start + id_actions(kind, ids@.subrange(0, i as int)));
    }
    assert(ids@.subrange(0, ids@.len() as int) =~= ids@);
}

/// Whether the track with this id still holds clips.
fn track_has_content(contents: &Vec<TrackContent>, id: u64) -> (found: bool)
    ensures
        found == has_content(contents@, id),
{
    let mut k: usize = 0;
    while k < contents.len()
        invariant
            k <= contents@.len(),
            forall|j: int| 0 <= j < k ==> !(contents@[j].id == id && contents@[j].has_clips),
        decreases contents@.len() - k,
    {
        if contents[k].id == id && contents[k].has_clips {
            return true;
        }
        k = k + 1;
    }
    false
}

/// Applies a frame's track requests: toggles the collapsed rows itself, and returns, in
/// order, every other change the project must make.
pub fn apply_track_commands(
    commands: &TrackCommands,
    contents: &Vec<TrackContent>,
    collapsed: &mut CollapsedTracks,
) -> (actions: Vec<TrackAction>)
    ensures
        forall|id: u64|
            final(collapsed)@.contains(id) == (old(collapsed)@.contains(id) != (
            commands.toggle_collapsed@.filter(|x: u64| x == id).len() % 2 == 1)),
        actions@ == track_actions(*commands, contents@),
{
    let mut t: usize = 0;
    while t < commands.toggle_collapsed.len()
        invariant
            t <= commands.toggle_collapsed@.len(),
            forall|id: u64|
                collapsed@.contains(id) == (old(collapsed)@.contains(id) != (
                commands.toggle_collapsed@.subrange(0, t as int).filter(|x: u64| x == id).len()
                    % 2 == 1)),
        decreases commands.toggle_collapsed@.len() - t,
    {
        let id = commands.toggle_collapsed[t];
        let ghost before = collapsed@;
        collapsed.toggle(id);
        proof {
            let prev = commands.toggle_collapsed@.subrange(0, t as int);
            let next = commands.toggle_collapsed@.subrange(0, t + 1);
            assert(next =~= prev.push(id));
            assert forall|x: u64|
                collapsed@.contains(x) == (old(collapsed)@.contains(x) != (next.filter(
                    |y: u64| y == x,
                ).len() % 2 == 1)) by {
                reveal_with_fuel(Seq::filter, 1);
                assert(next.drop_last() =~= prev);
            }
        }
        t = t + 1;
    }
    assert(commands.toggle_collapsed@.subrange(0, commands.toggle_collapsed@.len() as int)
        =~= commands.toggle_collapsed@);

    let mut actions: Vec<TrackAction> = Vec::new();
    push_id_actions(&mut actions, TrackIdRequest::ToggleVisibility, &commands.toggle_visibility);
    assert(actions@ =~= id_actions(TrackIdRequest::ToggleVisibility, commands.toggle_visibility@));
    push_id_actions(&mut actions, TrackIdRequest::ToggleLock, &commands.toggle_lock);

    let ghost start = actions@;
    let mut i: usize = 0;
    while i < commands.audio_roles.len()
        invariant
            i <= commands.audio_roles@.len(),
            actions@ == start + Seq::new(
                i as nat,
                |j: int| TrackAction::SetAudioRole(commands.audio_roles@[j].0, commands.audio_roles@[j].1),
            ),
        decreases commands.audio_roles@.len() - i,
    {
        let (id, role) = commands.audio_roles[i];
        actions.push(TrackAction::SetAudioRole(id, role));
        i = i + 1;
        assert(actions@ =~= start + Seq::new(
            i as nat,
            |j: int| TrackAction::SetAudioRole(commands.audio_roles@[j].0, commands.audio_roles@[j].1),
        ));
    }

    let ghost start = actions@;
    let mut i: usize = 0;
    while i < commands.color_labels.len()
        invariant
            i <= commands.color_labels@.len(),
            actions@ == start + Seq::new(
                i as nat,
                |j: int|
                    TrackAction::SetColorLabel(commands.color_labels@[j].0, commands.color_labels@[j].1),
            ),
        decreases commands.color_labels@.len() - i,
    {
        let (id, label) = commands.color_labels[i];
        actions.push(TrackAction::SetColorLabel(id, label));
        i = i + 1;
        assert(actions@ =~= start + Seq::new(
            i as nat,
            |j: int|
                TrackAction::SetColorLabel(commands.color_labels@[j].0, commands.color_labels@[j].1),
        ));
    }

    let ghost start = actions@;
    let mut i: usize = 0;
    while i < commands.renames.len()
        invariant
            i <= commands.renames@.len(),
            actions@ == start + Seq::new(
                i as nat,
                |j: int| TrackAction::BeginRename(commands.renames@[j].0, commands.renames@[j].1),
            ),
        decreases commands.renames@.len() - i,
    {
        let id = commands.renames[i].0;
        let name = commands.renames[i].1.clone();
        actions.push(TrackAction::BeginRename(id, name));
        i = i + 1;
        assert(actions@ =~= start + Seq::new(
            i as nat,
            |j: int| TrackAction::BeginRename(commands.renames@[j].0, commands.renames@[j].1),
        ));
    }

    push_id_actions(&mut actions, TrackIdRequest::Duplicate, &commands.duplicates);
    push_id_actions(&mut actions, TrackIdRequest::MoveUp, &commands.move_up);
    push_id_actions(&mut actions, TrackIdRequest::MoveDown, &commands.move_down);

    let ghost start = actions@;
    let mut i: usize = 0;
    while i < commands.razor_split_tracks.len()
        invariant
            i <= commands.razor_split_tracks@.len(),
            actions@ == start + Seq::new(i as nat, |j: int| TrackAction::RazorSplit(j as usize)),
        decreases commands.razor_split_tracks@.len() - i,
    {
        actions.push(TrackAction::RazorSplit(i));
        i = i + 1;
        assert(actions@ =~= start + Seq::new(i as nat, |j: int| TrackAction::RazorSplit(j as usize)));
    }

    let ghost start = actions@;
    let mut i: usize = 0;
    while i < commands.deletes.len()
        invariant
            i <= commands.deletes@.len(),
            actions@ == start + Seq::new(
                i as nat,
                |j: int| delete_action(contents@, commands.deletes@[j]),
            ),
        decreases commands.deletes@.len() - i,
    {
        let id = commands.deletes[i].0;
        let action = if track_has_content(contents, id) {
            TrackAction::ConfirmDelete(id, commands.deletes[i].1.clone())
        } else {
            TrackAction::Delete(id)
        };
        actions.push(action);
        i = i + 1;
        assert(actions@ =~= start + Seq::new(
            i as nat,
            |j: int| delete_action(contents@, commands.deletes@[j]),
        ));
    }
    actions
}

} // verus!
