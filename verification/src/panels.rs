use vstd::prelude::*;

use crate::interactions::TrackKind;
use crate::labels::AudioRole;
use crate::selection::{single_selection, Selection};

verus! {

/// A shape graphic's outline as the timeline strip reads it: an ellipse, or a polygon with
/// this many vertices.
#[derive(Clone, Copy, Debug, PartialEq, Eq, Structural)]
pub enum ShapeOutline {
    Ellipse,
    Polygon { vertex_count: usize },
}

/// The one-letter glyph a shape graphic's timeline block shows.
pub open spec fn shape_glyph_text(outline: ShapeOutline) -> Seq<char> {
    match outline {
        ShapeOutline::Ellipse => "O"@,
        ShapeOutline::Polygon { vertex_count } => if vertex_count == 3 {
            "^"@
        } else if vertex_count == 4 {
            "#"@
        } else {
            "P"@
        },
    }
}

/// The glyph labeling a shape graphic's block on the timeline: `O` for an ellipse, `^` for a
/// triangle, `#` for a quadrilateral, `P` for any other polygon.
pub fn shape_kind_glyph(outline: ShapeOutline) -> (glyph: &'static str)
    ensures
        glyph@ == shape_glyph_text(outline),
{
    match outline {
        ShapeOutline::Ellipse => "O",
        ShapeOutline::Polygon { vertex_count } => if vertex_count == 3 {
            "^"
        } else if vertex_count == 4 {
            "#"
        } else {
            "P"
        },
    }
}

/// The tabs of the properties panel.
#[derive(Clone, Copy, Debug, PartialEq, Eq, Structural)]
pub enum PropertiesTab {
    Inspector,
    Effects,
    Audio,
}

/// What the properties panel shows below its tab strip.
#[derive(Clone, Copy, Debug, PartialEq, Eq, Structural)]
pub enum PropertiesView {
    /// The selected text graphic's properties.
    TextClip(u64),
    /// The selected shape graphic's properties.
    ShapeClip(u64),
    /// The effects browser, with no clip to apply to.
    EffectsBrowser,
    /// The selected media clip's properties (or a "no clip selected" note).
    ClipProperties,
}

/// A selected text graphic wins, then a selected shape graphic; the Effects tab stays
/// browsable with nothing selected; everything else shows the media clip's properties.
pub open spec fn properties_view_for(selection: Selection, tab: PropertiesTab) -> PropertiesView {
    match selection.text_clip {
        Some(id) => PropertiesView::TextClip(id),
        None => match selection.shape_clip {
            Some(id) => PropertiesView::ShapeClip(id),
            None => if tab == PropertiesTab::Effects && selection.clip is None {
                PropertiesView::EffectsBrowser
            } else {
                PropertiesView::ClipProperties
            },
        },
    }
}

/// What the properties panel shows for this selection and tab.
pub fn properties_view(selection: &Selection, tab: PropertiesTab) -> (view: PropertiesView)
    ensures
        view == properties_view_for(*selection, tab),
{
    if let Some(id) = selection.text_clip {
        return PropertiesView::TextClip(id);
    }
    if let Some(id) = selection.shape_clip {
        return PropertiesView::ShapeClip(id);
    }
    if tab == PropertiesTab::Effects && selection.clip.is_none() {
        PropertiesView::EffectsBrowser
    } else {
        PropertiesView::ClipProperties
    }
}

/// With a single selection, the panel shows the properties of exactly the selected item: a
/// text or shape view names the selected graphic, and a selected media clip always gets the
/// clip view.
pub proof fn lemma_properties_follow_selection(selection: Selection, tab: PropertiesTab)
    requires
        single_selection(selection),
    ensures
        selection.clip is Some ==> properties_view_for(selection, tab)
            == PropertiesView::ClipProperties,
        selection.text_clip matches Some(id) ==> properties_view_for(selection, tab)
            == PropertiesView::TextClip(id),
        selection.shape_clip matches Some(id) ==> properties_view_for(selection, tab)
            == PropertiesView::ShapeClip(id),
{
}

/// Which sections the properties panel shows for a selected media clip.
#[derive(Clone, Copy, Debug, PartialEq, Eq, Structural)]
pub struct ClipPropertySections {
    /// Gain and its keyframes.
    pub gain: bool,
    /// "Freeze frame".
    pub freeze: bool,
    /// Deflicker.
    pub deflicker: bool,
    /// Playback speed.
    pub speed: bool,
    /// The hint to switch voice cleanup on for a clip on a Mic track.
    pub voice_cleanup_hint: bool,
    /// Voice cleanup and its settings.
    pub voice_cleanup: bool,
    /// Voice cleanup's before/after preview.
    pub voice_cleanup_preview: bool,
    /// Crop, auto-reframe and the crop keyframes.
    pub crop: bool,
    /// Mask, flip, blend mode, the position/scale/rotation/opacity keyframes, anchor and
    /// motion tracking.
    pub transform: bool,
    /// The visual effects (color filter, LUT, layer size, color adjustments, effects
    /// browser and the rest of the Effects tab).
    pub effects: bool,
}

/// The sections each tab shows: the Audio tab holds gain for any clip, and voice cleanup for an
/// audio clip (with a hint while it is off on a Mic track, and its preview while it is on);
/// the Inspector tab holds speed for any clip and crop and the transform sections for a video
/// clip; the Effects tab holds freeze, deflicker and the visual effects for a video clip.
pub open spec fn clip_property_sections_for(
    tab: PropertiesTab,
    track_kind: Option<TrackKind>,
    audio_role: Option<AudioRole>,
    voice_cleanup_enabled: bool,
) -> ClipPropertySections {
    let video = track_kind == Some(TrackKind::Video);
    let audio = track_kind == Some(TrackKind::Audio);
    ClipPropertySections {
        gain: tab == PropertiesTab::Audio,
        freeze: tab == PropertiesTab::Effects && video,
        deflicker: tab == PropertiesTab::Effects && video,
        speed: tab == PropertiesTab::Inspector,
        voice_cleanup_hint: tab == PropertiesTab::Audio && audio && !voice_cleanup_enabled
            && audio_role == Some(AudioRole::Mic),
        voice_cleanup: tab == PropertiesTab::Audio && audio,
        voice_cleanup_preview: tab == PropertiesTab::Audio && audio && voice_cleanup_enabled,
        crop: tab == PropertiesTab::Inspector && video,
        transform: tab == PropertiesTab::Inspector && video,
        effects: tab == PropertiesTab::Effects && video,
    }
}

/// The sections shown for a media clip on a track of `track_kind` (if the clip's track is
/// known) whose track carries `audio_role`.
pub fn clip_property_sections(
    tab: PropertiesTab,
    track_kind: Option<TrackKind>,
    audio_role: Option<AudioRole>,
    voice_cleanup_enabled: bool,
) -> (sections: ClipPropertySections)
    ensures
        sections == clip_property_sections_for(tab, track_kind, audio_role, voice_cleanup_enabled),
{
    let video = match track_kind {
        Some(TrackKind::Video) => true,
        _ => false,
    };
    let audio = match track_kind {
        Some(TrackKind::Audio) => true,
        _ => false,
    };
    let mic = match audio_role {
        Some(AudioRole::Mic) => true,
        _ => false,
    };
    let on_audio = tab == PropertiesTab::Audio;
    let on_effects = tab == PropertiesTab::Effects;
    let on_inspector = tab == PropertiesTab::Inspector;
    ClipPropertySections {
        gain: on_audio,
        freeze: on_effects && video,
        deflicker: on_effects && video,
        speed: on_inspector,
        voice_cleanup_hint: on_audio && audio && !voice_cleanup_enabled && mic,
        voice_cleanup: on_audio && audio,
        voice_cleanup_preview: on_audio && audio && voice_cleanup_enabled,
        crop: on_inspector && video,
        transform: on_inspector && video,
        effects: on_effects && video,
    }
}

/// Freezing, deflicker, crop, the transform and the visual effects only make sense for a video
/// clip, and voice cleanup only for an audio clip: on any other clip, in any tab, those
/// sections stay hidden.
pub proof fn lemma_sections_follow_track_kind(
    tab: PropertiesTab,
    track_kind: Option<TrackKind>,
    audio_role: Option<AudioRole>,
    voice_cleanup_enabled: bool,
)
    ensures
        track_kind != Some(TrackKind::Video) ==> {
            let s = clip_property_sections_for(tab, track_kind, audio_role, voice_cleanup_enabled);
            !s.freeze && !s.deflicker && !s.crop && !s.transform && !s.effects
        },
        track_kind != Some(TrackKind::Audio) ==> {
            let s = clip_property_sections_for(tab, track_kind, audio_role, voice_cleanup_enabled);
            !s.voice_cleanup && !s.voice_cleanup_hint && !s.voice_cleanup_preview
        },
{
}

/// Which entries of the Sequence menu are enabled for the active sequence at `index` of
/// `count` sequences.
#[derive(Clone, Copy, Debug, PartialEq, Eq, Structural)]
pub struct SequenceMenu {
    /// Where "move left" moves the active sequence, if it can move left.
    pub move_left_to: Option<usize>,
    /// Where "move right" moves the active sequence, if it can move right.
    pub move_right_to: Option<usize>,
    /// Whether the active sequence can be deleted (never the last one).
    pub can_delete: bool,
}

/// The Sequence menu's state for the active sequence at `index` of `count`.
pub fn sequence_menu(index: usize, count: usize) -> (menu: SequenceMenu)
    requires
        index < count,
    ensures
        menu.move_left_to == (if index > 0 {
            Some((index - 1) as usize)
        } else {
            None
        }),
        menu.move_right_to == (if index + 1 < count {
            Some((index + 1) as usize)
        } else {
            None
        }),
        menu.can_delete == (count > 1),
{
    SequenceMenu {
        move_left_to: if index > 0 {
            Some(index - 1)
        } else {
            None
        },
        move_right_to: if index + 1 < count {
            Some(index + 1)
        } else {
            None
        },
        can_delete: count > 1,
    }
}

/// The sequences "insert as compound clip" offers: every sequence but the active one, in
/// project order, as indices into `sequence_ids`.
pub fn other_sequences(sequence_ids: &Vec<u64>, active_id: u64) -> (others: Vec<usize>)
    ensures
        forall|i: int|
            0 <= i < sequence_ids@.len() ==> (others@.contains(i as usize) <==> sequence_ids@[i]
                != active_id),
        forall|p: int| 0 <= p < others@.len() ==> others@[p] < sequence_ids@.len(),
        forall|p: int, q: int| 0 <= p < q < others@.len() ==> others@[p] < others@[q],
{
    let mut others: Vec<usize> = Vec::new();
    let mut i: usize = 0;
    while i < sequence_ids.len()
        invariant
            i <= sequence_ids@.len(),
            forall|j: int|
                0 <= j < i ==> (others@.contains(j as usize) <==> sequence_ids@[j] != active_id),
            forall|p: int| 0 <= p < others@.len() ==> others@[p] < i,
            forall|p: int, q: int| 0 <= p < q < others@.len() ==> others@[p] < others@[q],
        decreases sequence_ids@.len() - i,
    {
        let ghost old_others = others@;
        let keep = sequence_ids[i] != active_id;
        if keep {
            others.push(i);
        }
        proof {
            assert forall|j: int|
                0 <= j < i + 1 implies (others@.contains(j as usize) <==> sequence_ids@[j]
                != active_id) by {
                if j < i {
                    if old_others.contains(j as usize) {
                        let w = choose|w: int|
                            0 <= w < old_others.len() && old_others[w] == j as usize;
                        assert(others@[w] == j as usize);
                    }
                    if others@.contains(j as usize) {
                        let w = choose|w: int| 0 <= w < others@.len() && others@[w] == j as usize;
                        if w < old_others.len() {
                            assert(old_others[w] == j as usize);
                        }
                    }
                } else {
                    if keep {
                        assert(others@[others@.len() - 1] == i);
                    } else if others@.contains(j as usize) {
                        let w = choose|w: int| 0 <= w < others@.len() && others@[w] == j as usize;
                        assert(old_others[w] < i);
                    }
                }
            }
        }
        i = i + 1;
    }
    others
}

/// Which entries a media clip's context menu shows, and which of them are enabled.
#[derive(Clone, Copy, Debug, PartialEq, Eq, Structural)]
pub struct ClipMenuEntries {
    /// "Split" is enabled: the clip covers the playhead.
    pub split_enabled: bool,
    /// "Paste" is enabled: a clip is on the clipboard.
    pub paste_enabled: bool,
    /// "Merge into composite" is enabled: at least two clips are multi-selected.
    pub merge_enabled: bool,
    /// "Detach audio" is shown: only a video clip carries audio to detach.
    pub show_detach_audio: bool,
    /// "Create compound clip" is shown: a video clip that is not already a compound clip.
    pub show_create_compound: bool,
    /// "Open compound clip" is shown: the clip is a compound clip.
    pub show_open_compound: bool,
    /// "Paste formatting" is enabled: formatting is on the clipboard.
    pub paste_formatting_enabled: bool,
}

/// The context menu of a clip on a track of `track_kind`.
pub fn clip_menu_entries(
    track_kind: TrackKind,
    is_compound: bool,
    covers_playhead: bool,
    has_clipboard_clip: bool,
    has_formatting_clipboard: bool,
    multi_selected_count: usize,
) -> (entries: ClipMenuEntries)
    ensures
        entries == (ClipMenuEntries {
            split_enabled: covers_playhead,
            paste_enabled: has_clipboard_clip,
            merge_enabled: multi_selected_count >= 2,
            show_detach_audio: track_kind == TrackKind::Video,
            show_create_compound: track_kind == TrackKind::Video && !is_compound,
            show_open_compound: is_compound,
            paste_formatting_enabled: has_formatting_clipboard,
        }),
{
    let is_video = track_kind == TrackKind::Video;
    ClipMenuEntries {
        split_enabled: covers_playhead,
        paste_enabled: has_clipboard_clip,
        merge_enabled: multi_selected_count >= 2,
        show_detach_audio: is_video,
        show_create_compound: is_video && !is_compound,
        show_open_compound: is_compound,
        paste_formatting_enabled: has_formatting_clipboard,
    }
}

} // verus!
