use vstd::prelude::*;

verus! {

/// The requests a frame of media-clip context menus collected. Speed-ramp requests are named
/// by their clip; the ramp's start and end speeds stay with the caller, found again by the
/// request's index.
pub struct ClipCommands {
    pub deletes: Vec<u64>,
    pub color_labels: Vec<(u64, Option<[u8; 3]>)>,
    pub detach_audio: Vec<u64>,
    pub speed_ramp_clips: Vec<u64>,
    pub custom_speed_ramp: Option<u64>,
    pub split_at_playhead: bool,
}

/// One change to the project, in order. Commands naming a clip act on it as the selected
/// clip: the clip is selected first.
#[derive(Clone, Copy, Debug, PartialEq, Eq)]
pub enum ClipAction {
    DeleteClip(u64),
    SetColorLabel(u64, Option<[u8; 3]>),
    DetachAudio(u64),
    /// Apply the speed ramp of the request with this index to this clip, in four steps.
    ApplySpeedRamp(usize, u64),
    /// Open the custom speed-ramp dialog for this clip, starting from a slow-to-fast ramp.
    OpenCustomSpeedRamp(u64),
    SplitAtPlayhead,
}

/// Every change a frame's clip requests make, in order: deletes, color labels, audio
/// detaches, speed ramps, the custom speed-ramp dialog, then the split at the playhead.
pub open spec fn clip_actions(commands: ClipCommands) -> Seq<ClipAction> {
    Seq::new(commands.deletes@.len(), |i: int| ClipAction::DeleteClip(commands.deletes@[i]))
        + Seq::new(
        commands.color_labels@.len(),
        |i: int| ClipAction::SetColorLabel(commands.color_labels@[i].0, commands.color_labels@[i].1),
    ) + Seq::new(
        commands.detach_audio@.len(),
        |i: int| ClipAction::DetachAudio(commands.detach_audio@[i]),
    ) + Seq::new(
        commands.speed_ramp_clips@.len(),
        |i: int| ClipAction::ApplySpeedRamp(i as usize, commands.speed_ramp_clips@[i]),
    ) + (match commands.custom_speed_ramp {
        Some(id) => seq![ClipAction::OpenCustomSpeedRamp(id)],
        None => seq![],
    }) + (if commands.split_at_playhead {
        seq![ClipAction::SplitAtPlayhead]
    } else {
        seq![]
    })
}

/// Turns a frame's clip requests into the ordered changes the project must make.
pub fn apply_clip_commands(commands: &ClipCommands) -> (actions: Vec<ClipAction>)
    ensures
        actions@ == clip_actions(*commands),
{
    let mut actions: Vec<ClipAction> = Vec::new();
    let mut i: usize = 0;
    while i < commands.deletes.len()
        invariant
            i <= commands.deletes@.len(),
            actions@ == Seq::new(i as nat, |j: int| ClipAction::DeleteClip(commands.deletes@[j])),
        decreases commands.deletes@.len() - i,
    {
        actions.push(ClipAction::DeleteClip(commands.deletes[i]));
        i = i + 1;
        assert(actions@ =~= Seq::new(i as nat, |j: int| ClipAction::DeleteClip(commands.deletes@[j])));
    }
    let ghost start = actions@;
    let mut i: usize = 0;
    while i < commands.color_labels.len()
        invariant
            i <= commands.color_labels@.len(),
            actions@ == start + Seq::new(
                i as nat,
                |j: int|
                    ClipAction::SetColorLabel(commands.color_labels@[j].0, commands.color_labels@[j].1),
            ),
        decreases commands.color_labels@.len() - i,
    {
        let (id, label) = commands.color_labels[i];
        actions.push(ClipAction::SetColorLabel(id, label));
        i = i + 1;
        assert(actions@ =~= start + Seq::new(
            i as nat,
            |j: int|
                ClipAction::SetColorLabel(commands.color_labels@[j].0, commands.color_labels@[j].1),
        ));
    }
    let ghost start = actions@;
    let mut i: usize = 0;
    while i < commands.detach_audio.len()
        invariant
            i <= commands.detach_audio@.len(),
            actions@ == start + Seq::new(
                i as nat,
                |j: int| ClipAction::DetachAudio(commands.detach_audio@[j]),
            ),
        decreases commands.detach_audio@.len() - i,
    {
        actions.push(ClipAction::DetachAudio(commands.detach_audio[i]));
        i = i + 1;
        assert(actions@ =~= start + Seq::new(
            i as nat,
            |j: int| ClipAction::DetachAudio(commands.detach_audio@[j]),
        ));
    }
    let ghost start = actions@;
    let mut i: usize = 0;
    while i < commands.speed_ramp_clips.len()
        invariant
            i <= commands.speed_ramp_clips@.len(),
            actions@ == start + Seq::new(
                i as nat,
                |j: int| ClipAction::ApplySpeedRamp(j as usize, commands.speed_ramp_clips@[j]),
            ),
        decreases commands.speed_ramp_clips@.len() - i,
    {
        actions.push(ClipAction::ApplySpeedRamp(i, commands.speed_ramp_clips[i]));
        i = i + 1;
        assert(actions@ =~= start + Seq::new(
            i as nat,
            |j: int| ClipAction::ApplySpeedRamp(j as usize, commands.speed_ramp_clips@[j]),
        ));
    }
    let ghost start = actions@;
    if let Some(id) = commands.custom_speed_ramp {
        actions.push(ClipAction::OpenCustomSpeedRamp(id));
    }
    let ghost middle = actions@;
    assert(middle =~= start + (match commands.custom_speed_ramp {
        Some(id) => seq![ClipAction::OpenCustomSpeedRamp(id)],
        None => seq![],
    }));
    if commands.split_at_playhead {
        actions.push(ClipAction::SplitAtPlayhead);
    }
    assert(actions@ =~= middle + (if commands.split_at_playhead {
        seq![ClipAction::SplitAtPlayhead]
    } else {
        seq![]
    }));
    actions
}

} // verus!
