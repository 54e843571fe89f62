use vstd::prelude::*;

use crate::labels::{ShapePreset, TextFontStyle};

verus! {

/// The weight a variable font's weight slider starts from when none was chosen.
pub const DEFAULT_FONT_WEIGHT: u16 = 400;

/// The background alpha a text graphic's background gets when it is switched on.
pub const TEXT_BACKGROUND_ALPHA: u8 = 192;

/// A text graphic's style and explicit weight after its font family changed: a family that
/// cannot be bold drops back to Regular, and a static (non-variable) family has no weight axis,
/// so an explicit weight is dropped.
pub fn after_font_family_change(
    style: TextFontStyle,
    weight: Option<u16>,
    supports_bold: bool,
    is_variable: bool,
) -> (result: (TextFontStyle, Option<u16>))
    ensures
        result.0 == (if supports_bold {
            style
        } else {
            TextFontStyle::Regular
        }),
        result.1 == (if is_variable {
            weight
        } else {
            None
        }),
{
    let new_style = if supports_bold {
        style
    } else {
        TextFontStyle::Regular
    };
    let new_weight = if is_variable {
        weight
    } else {
        None
    };
    (new_style, new_weight)
}

/// The weight the weight slider shows: the explicit weight, or the default.
pub fn shown_font_weight(weight: Option<u16>) -> (shown: u16)
    ensures
        shown == (match weight {
            Some(w) => w,
            None => DEFAULT_FONT_WEIGHT,
        }),
{
    match weight {
        Some(w) => w,
        None => DEFAULT_FONT_WEIGHT,
    }
}

/// A text graphic's background is drawn when its color is not fully transparent.
pub fn text_background_enabled(rgba: [u8; 4]) -> (enabled: bool)
    ensures
        enabled == (rgba[3] > 0),
{
    rgba[3] > 0
}

/// Switches a text graphic's background on (semi-opaque) or off (fully transparent), keeping
/// its color.
pub fn set_text_background_enabled(rgba: [u8; 4], enabled: bool) -> (result: [u8; 4])
    ensures
        result[0] == rgba[0],
        result[1] == rgba[1],
        result[2] == rgba[2],
        result[3] == (if enabled {
            TEXT_BACKGROUND_ALPHA
        } else {
            0u8
        }),
{
    let mut result = rgba;
    result[3] = if enabled {
        TEXT_BACKGROUND_ALPHA
    } else {
        0
    };
    result
}

/// The presets the shape picker offers: the five fixed presets, and `Custom` only when it is
/// already the current value (there is nothing to pick it for).
pub fn shape_preset_options(current: ShapePreset) -> (options: Vec<ShapePreset>)
    ensures
        options@.subrange(0, 5) == seq![
            ShapePreset::Ellipse,
            ShapePreset::Rectangle,
            ShapePreset::Triangle,
            ShapePreset::Trapezoid,
            ShapePreset::Arrow,
        ],
        options@.len() == (if current == ShapePreset::Custom {
            6int
        } else {
            5int
        }),
        current == ShapePreset::Custom ==> options@[5] == ShapePreset::Custom,
{
    let mut options = vec![
        ShapePreset::Ellipse,
        ShapePreset::Rectangle,
        ShapePreset::Triangle,
        ShapePreset::Trapezoid,
        ShapePreset::Arrow,
    ];
    let ghost fixed = options@;
    if current == ShapePreset::Custom {
        options.push(ShapePreset::Custom);
    }
    assert(options@.subrange(0, 5) =~= fixed);
    options
}

/// Which kind of graphic a properties-panel edit changed.
#[derive(Clone, Copy, Debug, PartialEq, Eq, Structural)]
pub enum GraphicKind {
    Text,
    Shape,
}

/// One step of committing a graphic's edits from the properties panel, in the order the editor
/// runs them.
#[derive(Clone, Copy, Debug, PartialEq, Eq, Structural)]
pub enum GraphicCommitStep {
    /// Take the undo snapshot that a run of slider drags shares.
    PushUndoSnapshotForDrag,
    /// Write the edited graphic back over the one with this id on the first track of its kind
    /// that holds it.
    StoreGraphic(GraphicKind, u64),
    /// Rebuild the preview pipeline: the graphic's start or duration changed, which can change
    /// which clips cover the playhead.
    InvalidatePreviewRendering,
    /// Redraw only this graphic in the open preview.
    RefreshPreviewContent(GraphicKind, u64),
}

/// The steps that commit a text or shape graphic's edits: nothing when nothing changed;
/// otherwise an undo snapshot, the write-back, then a full preview rebuild if its start or
/// duration changed, or else a refresh of just this graphic.
pub open spec fn graphic_commit_steps_for(
    kind: GraphicKind,
    id: u64,
    changed: bool,
    timing_changed: bool,
) -> Seq<GraphicCommitStep> {
    if !changed {
        seq![]
    } else {
        seq![
            GraphicCommitStep::PushUndoSnapshotForDrag,
            GraphicCommitStep::StoreGraphic(kind, id),
            if timing_changed {
                GraphicCommitStep::InvalidatePreviewRendering
            } else {
                GraphicCommitStep::RefreshPreviewContent(kind, id)
            },
        ]
    }
}

/// How the properties panel commits this frame's edits to the text or shape graphic `id`:
/// `changed` is whether any field changed, `timing_changed` whether its start or duration did.
pub fn graphic_commit_steps(kind: GraphicKind, id: u64, changed: bool, timing_changed: bool) -> (steps:
    Vec<GraphicCommitStep>)
    ensures
        steps@ == graphic_commit_steps_for(kind, id, changed, timing_changed),
{
    let mut steps: Vec<GraphicCommitStep> = Vec::new();
    if changed {
        steps.push(GraphicCommitStep::PushUndoSnapshotForDrag);
        steps.push(GraphicCommitStep::StoreGraphic(kind, id));
        if timing_changed {
            steps.push(GraphicCommitStep::InvalidatePreviewRendering);
        } else {
            steps.push(GraphicCommitStep::RefreshPreviewContent(kind, id));
        }
    }
    assert(steps@ =~= graphic_commit_steps_for(kind, id, changed, timing_changed));
    steps
}

} // verus!
