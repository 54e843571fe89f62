use vstd::prelude::*;

use crate::text::{is_blank, is_blank_text};

verus! {

/// The editing tool the timeline pointer acts with.
#[derive(Clone, Copy, Debug, PartialEq, Eq, Structural)]
pub enum EditorTool {
    Select,
    Razor,
    Text,
    Hand,
    Ripple,
    Roll,
    Slip,
    Slide,
}

/// What one frame's keyboard and pointer state says, as the editor's shortcuts read it. The
/// `*_combo` fields are whether the user's configurable key binding for that command matched
/// this frame; `pending_text_clip` is the text graphic the Text tool just created (if it is
/// still waiting for its first character), and `pending_clip_text` that graphic's current text
/// if it is still on the timeline.
pub struct ShortcutInput {
    pub pointer_down: bool,
    pub ctrl: bool,
    pub shift: bool,
    pub alt: bool,
    pub any_modifier: bool,
    pub wants_keyboard_input: bool,
    pub s_pressed: bool,
    pub delete_pressed: bool,
    pub v_pressed: bool,
    pub c_pressed: bool,
    pub t_pressed: bool,
    pub x_pressed: bool,
    pub escape_pressed: bool,
    pub number_keys_pressed: [bool; 9],
    pub split_combo: bool,
    pub copy_formatting_combo: bool,
    pub paste_formatting_combo: bool,
    pub play_pause_combo: bool,
    pub add_opacity_marker_combo: bool,
    pub undo_combo: bool,
    pub redo_combo: bool,
    pub pending_text_clip: Option<u64>,
    pub pending_clip_text: Option<String>,
}

/// One editor command a shortcut triggers, in the order the editor must run them.
#[derive(Clone, Copy, Debug, PartialEq, Eq, Structural)]
pub enum ShortcutAction {
    /// Close the undo step of a slider drag once the pointer is up (`pointer_down` false).
    EndUndoDragTracking { pointer_down: bool },
    SaveProject,
    SplitAtPlayhead,
    DeleteSelectedClip,
    SelectTool(EditorTool),
    /// Remove this still-empty text graphic from every text track, and deselect it.
    DiscardTextClip(u64),
    CopySelectedClip,
    CutSelectedClip,
    PasteClipAtPlayhead,
    CopySelectedClipFormatting,
    PasteSelectedClipFormatting,
    TogglePreviewPlayback,
    AddOpacityMarkerAtPlayhead,
    Undo,
    Redo,
    /// Switch the multicam group at the playhead to this angle (0-based).
    SwitchMulticamAngle(usize),
}

/// The commands of one frame, and the text graphic still waiting for its first character.
pub struct ShortcutOutcome {
    pub actions: Vec<ShortcutAction>,
    pub pending_text_clip: Option<u64>,
}

/// `action` if `condition` holds, nothing otherwise.
#[verifier::opaque]
pub open spec fn when(condition: bool, action: ShortcutAction) -> Seq<ShortcutAction> {
    if condition {
        seq![action]
    } else {
        seq![]
    }
}

/// The multicam switches for the first `n` number keys (1 to `n`), held with no modifier.
pub open spec fn angle_switches(keys: Seq<bool>, no_modifier: bool, n: int) -> Seq<
    ShortcutAction,
>
    decreases n,
{
    if n <= 0 {
        seq![]
    } else {
        angle_switches(keys, no_modifier, n - 1) + when(
            no_modifier && keys[n - 1],
            ShortcutAction::SwitchMulticamAngle((n - 1) as usize),
        )
    }
}

/// Bare-letter tool keys only count while no text field has the keyboard and neither Ctrl nor
/// Alt is held.
pub open spec fn tool_keys_enabled(input: ShortcutInput) -> bool {
    !input.wants_keyboard_input && !(input.ctrl || input.alt)
}

/// Escape discards the Text tool's pending graphic when it is still blank.
pub open spec fn discards_pending(input: ShortcutInput) -> bool {
    &&& input.pending_text_clip is Some
    &&& input.escape_pressed
    &&& input.pending_clip_text matches Some(text) && is_blank(text@)
}

/// The editing commands: saving, splitting, deleting, tool keys and the Text tool's Escape,
/// preceded by closing a finished slider drag's undo step.
pub open spec fn editing_actions(input: ShortcutInput) -> Seq<ShortcutAction> {
    seq![ShortcutAction::EndUndoDragTracking { pointer_down: input.pointer_down }] + when(
        input.ctrl && input.s_pressed,
        ShortcutAction::SaveProject,
    ) + when(input.split_combo, ShortcutAction::SplitAtPlayhead) + when(
        input.delete_pressed,
        ShortcutAction::DeleteSelectedClip,
    ) + when(
        tool_keys_enabled(input) && input.v_pressed,
        ShortcutAction::SelectTool(EditorTool::Select),
    ) + when(
        tool_keys_enabled(input) && input.c_pressed,
        ShortcutAction::SelectTool(EditorTool::Razor),
    ) + when(
        tool_keys_enabled(input) && input.t_pressed,
        ShortcutAction::SelectTool(EditorTool::Text),
    ) + when(
        discards_pending(input),
        ShortcutAction::DiscardTextClip(
            match input.pending_text_clip {
                Some(id) => id,
                None => 0,
            },
        ),
    )
}

/// The clipboard commands: whole-clip copy/cut/paste, then formatting copy/paste.
pub open spec fn clipboard_actions(input: ShortcutInput) -> Seq<ShortcutAction> {
    when(input.ctrl && !input.shift && input.c_pressed, ShortcutAction::CopySelectedClip) + when(
        input.ctrl && input.x_pressed,
        ShortcutAction::CutSelectedClip,
    ) + when(input.ctrl && !input.shift && input.v_pressed, ShortcutAction::PasteClipAtPlayhead)
        + when(input.copy_formatting_combo, ShortcutAction::CopySelectedClipFormatting) + when(
        input.paste_formatting_combo,
        ShortcutAction::PasteSelectedClipFormatting,
    )
}

/// Playback, opacity marker, undo and redo.
pub open spec fn transport_actions(input: ShortcutInput) -> Seq<ShortcutAction> {
    when(input.play_pause_combo, ShortcutAction::TogglePreviewPlayback) + when(
        input.add_opacity_marker_combo,
        ShortcutAction::AddOpacityMarkerAtPlayhead,
    ) + when(input.undo_combo, ShortcutAction::Undo) + when(input.redo_combo, ShortcutAction::Redo)
}

/// Every command this frame's input triggers, in order.
pub open spec fn shortcut_actions(input: ShortcutInput) -> Seq<ShortcutAction> {
    editing_actions(input) + clipboard_actions(input) + transport_actions(input) + angle_switches(
        input.number_keys_pressed@,
        !input.any_modifier,
        9,
    )
}

/// Appends `action` when `condition` holds.
fn push_when(actions: &mut Vec<ShortcutAction>, condition: bool, action: ShortcutAction)
    ensures
        final(actions)@ == old(actions)@ + when(condition, action),
{
    reveal(when);
    if condition {
        actions.push(action);
    } else {
        assert(old(actions)@ + when(condition, action) =~= old(actions)@);
    }
}

/// The editing commands of one frame.
fn editing_stage(input: &ShortcutInput) -> (actions: Vec<ShortcutAction>)
    ensures
        actions@ == editing_actions(*input),
{
    let mut actions: Vec<ShortcutAction> = Vec::new();
    actions.push(ShortcutAction::EndUndoDragTracking { pointer_down: input.pointer_down });
    assert(actions@ =~= seq![ShortcutAction::EndUndoDragTracking { pointer_down: input.pointer_down }]);
    push_when(&mut actions, input.ctrl && input.s_pressed, ShortcutAction::SaveProject);
    push_when(&mut actions, input.split_combo, ShortcutAction::SplitAtPlayhead);
    push_when(&mut actions, input.delete_pressed, ShortcutAction::DeleteSelectedClip);
    let tools_enabled = !input.wants_keyboard_input && !(input.ctrl || input.alt);
    assert(tools_enabled == tool_keys_enabled(*input));
    push_when(
        &mut actions,
        tools_enabled && input.v_pressed,
        ShortcutAction::SelectTool(EditorTool::Select),
    );
    push_when(
        &mut actions,
        tools_enabled && input.c_pressed,
        ShortcutAction::SelectTool(EditorTool::Razor),
    );
    push_when(
        &mut actions,
        tools_enabled && input.t_pressed,
        ShortcutAction::SelectTool(EditorTool::Text),
    );
    let pending_id = match input.pending_text_clip {
        Some(id) => id,
        None => 0,
    };
    let blank = match &input.pending_clip_text {
        Some(text) => is_blank_text(text.as_str()),
        None => false,
    };
    let discard = input.pending_text_clip.is_some() && input.escape_pressed && blank;
    assert(discard == discards_pending(*input));
    push_when(&mut actions, discard, ShortcutAction::DiscardTextClip(pending_id));
    actions
}

/// The clipboard commands of one frame.
fn clipboard_stage(input: &ShortcutInput) -> (actions: Vec<ShortcutAction>)
    ensures
        actions@ == clipboard_actions(*input),
{
    let mut actions: Vec<ShortcutAction> = Vec::new();
    push_when(
        &mut actions,
        input.ctrl && !input.shift && input.c_pressed,
        ShortcutAction::CopySelectedClip,
    );
    assert(actions@ =~= when(
        input.ctrl && !input.shift && input.c_pressed,
        ShortcutAction::CopySelectedClip,
    ));
    push_when(&mut actions, input.ctrl && input.x_pressed, ShortcutAction::CutSelectedClip);
    push_when(
        &mut actions,
        input.ctrl && !input.shift && input.v_pressed,
        ShortcutAction::PasteClipAtPlayhead,
    );
    push_when(
        &mut actions,
        input.copy_formatting_combo,
        ShortcutAction::CopySelectedClipFormatting,
    );
    push_when(
        &mut actions,
        input.paste_formatting_combo,
        ShortcutAction::PasteSelectedClipFormatting,
    );
    actions
}

/// Playback, marker and history commands of one frame.
fn transport_stage(input: &ShortcutInput) -> (actions: Vec<ShortcutAction>)
    ensures
        actions@ == transport_actions(*input),
{
    let mut actions: Vec<ShortcutAction> = Vec::new();
    push_when(&mut actions, input.play_pause_combo, ShortcutAction::TogglePreviewPlayback);
    assert(actions@ =~= when(input.play_pause_combo, ShortcutAction::TogglePreviewPlayback));
    push_when(
        &mut actions,
        input.add_opacity_marker_combo,
        ShortcutAction::AddOpacityMarkerAtPlayhead,
    );
    push_when(&mut actions, input.undo_combo, ShortcutAction::Undo);
    push_when(&mut actions, input.redo_combo, ShortcutAction::Redo);
    actions
}

/// The multicam angle switches of one frame.
fn angle_stage(input: &ShortcutInput) -> (actions: Vec<ShortcutAction>)
    ensures
        actions@ == angle_switches(input.number_keys_pressed@, !input.any_modifier, 9),
{
    let mut actions: Vec<ShortcutAction> = Vec::new();
    let no_modifier = !input.any_modifier;
    let mut angle: usize = 0;
    while angle < 9
        invariant
            angle <= 9,
            no_modifier == !input.any_modifier,
            actions@ == angle_switches(input.number_keys_pressed@, no_modifier, angle as int),
        decreases 9 - angle,
    {
        let pressed = no_modifier && input.number_keys_pressed[angle];
        push_when(&mut actions, pressed, ShortcutAction::SwitchMulticamAngle(angle));
        angle = angle + 1;
    }
    actions
}

/// `when(condition, action)` holds `x` exactly when the condition holds and `x` is the action.
proof fn lemma_when_contains(condition: bool, action: ShortcutAction, x: ShortcutAction)
    ensures
        (when(condition, action)).contains(x) <==> (condition && action == x),
{
    reveal(when);
    if condition {
        assert(when(condition, action)[0] == action);
    }
}

/// A concatenation holds `x` exactly when one of its parts does.
proof fn lemma_concat_contains(a: Seq<ShortcutAction>, b: Seq<ShortcutAction>, x: ShortcutAction)
    ensures
        (a + b).contains(x) <==> (a.contains(x) || b.contains(x)),
{
    if a.contains(x) {
        let k = choose|k: int| 0 <= k < a.len() && a[k] == x;
        assert((a + b)[k] == x);
    }
    if b.contains(x) {
        let k = choose|k: int| 0 <= k < b.len() && b[k] == x;
        assert((a + b)[a.len() + k] == x);
    }
    if (a + b).contains(x) {
        let k = choose|k: int| 0 <= k < (a + b).len() && (a + b)[k] == x;
        if k < a.len() {
            assert(a[k] == x);
        } else {
            assert(b[k - a.len()] == x);
        }
    }
}

/// The number keys only ever switch multicam angles.
proof fn lemma_angle_switches_only_switch(
    keys: Seq<bool>,
    no_modifier: bool,
    n: int,
    x: ShortcutAction,
)
    requires
        !(x is SwitchMulticamAngle),
    ensures
        !angle_switches(keys, no_modifier, n).contains(x),
    decreases n,
{
    if n > 0 {
        lemma_angle_switches_only_switch(keys, no_modifier, n - 1, x);
        lemma_when_contains(
            no_modifier && keys[n - 1],
            ShortcutAction::SwitchMulticamAngle((n - 1) as usize),
            x,
        );
        lemma_concat_contains(
            angle_switches(keys, no_modifier, n - 1),
            when(no_modifier && keys[n - 1], ShortcutAction::SwitchMulticamAngle((n - 1) as usize)),
            x,
        );
    }
}

/// `when(condition, action)` never holds anything but its action.
proof fn lemma_when_lacks(condition: bool, action: ShortcutAction, x: ShortcutAction)
    requires
        action != x,
    ensures
        !(when(condition, action)).contains(x),
{
    lemma_when_contains(condition, action, x);
}

/// The editing stage never gives a whole-clip clipboard command.
proof fn lemma_editing_lacks(input: ShortcutInput, x: ShortcutAction)
    requires
        x == ShortcutAction::CopySelectedClip || x == ShortcutAction::PasteClipAtPlayhead
            || x == ShortcutAction::CutSelectedClip,
    ensures
        !editing_actions(input).contains(x),
{
    let e0 = seq![ShortcutAction::EndUndoDragTracking { pointer_down: input.pointer_down }];
    let w1 = when(input.ctrl && input.s_pressed, ShortcutAction::SaveProject);
    let w2 = when(input.split_combo, ShortcutAction::SplitAtPlayhead);
    let w3 = when(input.delete_pressed, ShortcutAction::DeleteSelectedClip);
    let w4 = when(
        tool_keys_enabled(input) && input.v_pressed,
        ShortcutAction::SelectTool(EditorTool::Select),
    );
    let w5 = when(
        tool_keys_enabled(input) && input.c_pressed,
        ShortcutAction::SelectTool(EditorTool::Razor),
    );
    let w6 = when(
        tool_keys_enabled(input) && input.t_pressed,
        ShortcutAction::SelectTool(EditorTool::Text),
    );
    let w7 = when(
        discards_pending(input),
        ShortcutAction::DiscardTextClip(
            match input.pending_text_clip {
                Some(id) => id,
                None => 0,
            },
        ),
    );
    assert(editing_actions(input) == e0 + w1 + w2 + w3 + w4 + w5 + w6 + w7);
    assert(!e0.contains(x)) by {
        if e0.contains(x) {
            let k = choose|k: int| 0 <= k < e0.len() && e0[k] == x;
            assert(e0[0] != x);
        }
    }
    lemma_when_lacks(input.ctrl && input.s_pressed, ShortcutAction::SaveProject, x);
    lemma_when_lacks(input.split_combo, ShortcutAction::SplitAtPlayhead, x);
    lemma_when_lacks(input.delete_pressed, ShortcutAction::DeleteSelectedClip, x);
    lemma_when_lacks(
        tool_keys_enabled(input) && input.v_pressed,
        ShortcutAction::SelectTool(EditorTool::Select),
        x,
    );
    lemma_when_lacks(
        tool_keys_enabled(input) && input.c_pressed,
        ShortcutAction::SelectTool(EditorTool::Razor),
        x,
    );
    lemma_when_lacks(
        tool_keys_enabled(input) && input.t_pressed,
        ShortcutAction::SelectTool(EditorTool::Text),
        x,
    );
    lemma_when_lacks(
        discards_pending(input),
        ShortcutAction::DiscardTextClip(
            match input.pending_text_clip {
                Some(id) => id,
                None => 0,
            },
        ),
        x,
    );
    lemma_concat_contains(e0, w1, x);
    lemma_concat_contains(e0 + w1, w2, x);
    lemma_concat_contains(e0 + w1 + w2, w3, x);
    lemma_concat_contains(e0 + w1 + w2 + w3, w4, x);
    lemma_concat_contains(e0 + w1 + w2 + w3 + w4, w5, x);
    lemma_concat_contains(e0 + w1 + w2 + w3 + w4 + w5, w6, x);
    lemma_concat_contains(e0 + w1 + w2 + w3 + w4 + w5 + w6, w7, x);
}

/// The transport stage never gives a whole-clip clipboard command.
proof fn lemma_transport_lacks(input: ShortcutInput, x: ShortcutAction)
    requires
        x == ShortcutAction::CopySelectedClip || x == ShortcutAction::PasteClipAtPlayhead
            || x == ShortcutAction::CutSelectedClip,
    ensures
        !transport_actions(input).contains(x),
{
    let w1 = when(input.play_pause_combo, ShortcutAction::TogglePreviewPlayback);
    let w2 = when(input.add_opacity_marker_combo, ShortcutAction::AddOpacityMarkerAtPlayhead);
    let w3 = when(input.undo_combo, ShortcutAction::Undo);
    let w4 = when(input.redo_combo, ShortcutAction::Redo);
    lemma_when_lacks(input.play_pause_combo, ShortcutAction::TogglePreviewPlayback, x);
    lemma_when_lacks(input.add_opacity_marker_combo, ShortcutAction::AddOpacityMarkerAtPlayhead, x);
    lemma_when_lacks(input.undo_combo, ShortcutAction::Undo, x);
    lemma_when_lacks(input.redo_combo, ShortcutAction::Redo, x);
    lemma_concat_contains(w1, w2, x);
    lemma_concat_contains(w1 + w2, w3, x);
    lemma_concat_contains(w1 + w2 + w3, w4, x);
}

/// The clipboard stage holds `x` exactly when one of its five conditional commands does.
proof fn lemma_clipboard_contains(input: ShortcutInput, x: ShortcutAction)
    ensures
        clipboard_actions(input).contains(x) <==> ((input.ctrl && !input.shift && input.c_pressed
            && x == ShortcutAction::CopySelectedClip) || (input.ctrl && input.x_pressed && x
            == ShortcutAction::CutSelectedClip) || (input.ctrl && !input.shift && input.v_pressed
            && x == ShortcutAction::PasteClipAtPlayhead) || (input.copy_formatting_combo && x
            == ShortcutAction::CopySelectedClipFormatting) || (input.paste_formatting_combo && x
            == ShortcutAction::PasteSelectedClipFormatting)),
{
    let w1 = when(input.ctrl && !input.shift && input.c_pressed, ShortcutAction::CopySelectedClip);
    let w2 = when(input.ctrl && input.x_pressed, ShortcutAction::CutSelectedClip);
    let w3 = when(
        input.ctrl && !input.shift && input.v_pressed,
        ShortcutAction::PasteClipAtPlayhead,
    );
    let w4 = when(input.copy_formatting_combo, ShortcutAction::CopySelectedClipFormatting);
    let w5 = when(input.paste_formatting_combo, ShortcutAction::PasteSelectedClipFormatting);
    lemma_when_contains(
        input.ctrl && !input.shift && input.c_pressed,
        ShortcutAction::CopySelectedClip,
        x,
    );
    lemma_when_contains(input.ctrl && input.x_pressed, ShortcutAction::CutSelectedClip, x);
    lemma_when_contains(
        input.ctrl && !input.shift && input.v_pressed,
        ShortcutAction::PasteClipAtPlayhead,
        x,
    );
    lemma_when_contains(input.copy_formatting_combo, ShortcutAction::CopySelectedClipFormatting, x);
    lemma_when_contains(
        input.paste_formatting_combo,
        ShortcutAction::PasteSelectedClipFormatting,
        x,
    );
    lemma_concat_contains(w1, w2, x);
    lemma_concat_contains(w1 + w2, w3, x);
    lemma_concat_contains(w1 + w2 + w3, w4, x);
    lemma_concat_contains(w1 + w2 + w3 + w4, w5, x);
}

/// Whether a frame's commands hold a whole-clip clipboard command: exactly when the clipboard
/// stage gives it.
proof fn lemma_clipboard_command_source(input: ShortcutInput, x: ShortcutAction)
    requires
        x == ShortcutAction::CopySelectedClip || x == ShortcutAction::PasteClipAtPlayhead
            || x == ShortcutAction::CutSelectedClip,
    ensures
        shortcut_actions(input).contains(x) <==> clipboard_actions(input).contains(x),
{
    let e = editing_actions(input);
    let c = clipboard_actions(input);
    let t = transport_actions(input);
    let a = angle_switches(input.number_keys_pressed@, !input.any_modifier, 9);
    lemma_editing_lacks(input, x);
    lemma_transport_lacks(input, x);
    lemma_angle_switches_only_switch(input.number_keys_pressed@, !input.any_modifier, 9, x);
    lemma_concat_contains(e, c, x);
    lemma_concat_contains(e + c, t, x);
    lemma_concat_contains(e + c + t, a, x);
}

/// Shift turns Ctrl+C and Ctrl+V away from the whole-clip clipboard: with Shift held, a frame
/// never copies nor pastes a whole clip. Without Shift, Ctrl+C copies and Ctrl+V pastes it, and
/// Ctrl+X cuts it either way.
pub proof fn lemma_whole_clip_clipboard_keys(input: ShortcutInput)
    ensures
        input.shift ==> !shortcut_actions(input).contains(ShortcutAction::CopySelectedClip),
        input.shift ==> !shortcut_actions(input).contains(ShortcutAction::PasteClipAtPlayhead),
        shortcut_actions(input).contains(ShortcutAction::CopySelectedClip) <==> (input.ctrl
            && !input.shift && input.c_pressed),
        shortcut_actions(input).contains(ShortcutAction::PasteClipAtPlayhead) <==> (input.ctrl
            && !input.shift && input.v_pressed),
        shortcut_actions(input).contains(ShortcutAction::CutSelectedClip) <==> (input.ctrl
            && input.x_pressed),
{
    lemma_clipboard_command_source(input, ShortcutAction::CopySelectedClip);
    lemma_clipboard_command_source(input, ShortcutAction::PasteClipAtPlayhead);
    lemma_clipboard_command_source(input, ShortcutAction::CutSelectedClip);
    lemma_clipboard_contains(input, ShortcutAction::CopySelectedClip);
    lemma_clipboard_contains(input, ShortcutAction::PasteClipAtPlayhead);
    lemma_clipboard_contains(input, ShortcutAction::CutSelectedClip);
}

/// The editor's keyboard shortcuts for one frame: which commands run, in which order, and
/// whether the Text tool's pending graphic is still pending afterwards (Escape consumes it,
/// discarding it only when it is still blank).
pub fn editor_shortcuts(input: &ShortcutInput) -> (outcome: ShortcutOutcome)
    ensures
        outcome.actions@ == shortcut_actions(*input),
        outcome.actions@.contains(ShortcutAction::CopySelectedClip) <==> (input.ctrl
            && !input.shift && input.c_pressed),
        outcome.actions@.contains(ShortcutAction::PasteClipAtPlayhead) <==> (input.ctrl
            && !input.shift && input.v_pressed),
        outcome.actions@.contains(ShortcutAction::CutSelectedClip) <==> (input.ctrl
            && input.x_pressed),
        outcome.pending_text_clip == (if input.escape_pressed {
            None
        } else {
            input.pending_text_clip
        }),
{
    let mut actions = editing_stage(input);
    let mut clipboard = clipboard_stage(input);
    actions.append(&mut clipboard);
    let mut transport = transport_stage(input);
    actions.append(&mut transport);
    let mut angles = angle_stage(input);
    actions.append(&mut angles);
    proof {
        lemma_whole_clip_clipboard_keys(*input);
    }
    let pending = if input.escape_pressed {
        None
    } else {
        input.pending_text_clip
    };
    ShortcutOutcome { actions, pending_text_clip: pending }
}

} // verus!
