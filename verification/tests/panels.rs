use oca_editor::clip_commands::{apply_clip_commands, ClipAction, ClipCommands};
use oca_editor::labels::{ShapePreset, TextFontStyle};
use oca_editor::interactions::TrackKind;
use oca_editor::labels::AudioRole;
use oca_editor::panels::{
    clip_menu_entries, clip_property_sections, ClipPropertySections, other_sequences, properties_view, sequence_menu, shape_kind_glyph, PropertiesTab,
    PropertiesView, SequenceMenu, ShapeOutline, ClipMenuEntries,
};
use oca_editor::selection::Selection;
use oca_editor::text_props::{
    after_font_family_change, set_text_background_enabled, shape_preset_options,
    shown_font_weight, text_background_enabled, graphic_commit_steps, GraphicCommitStep, GraphicKind,
};

#[test]
fn shape_glyphs_follow_the_vertex_count() {
    assert_eq!(shape_kind_glyph(ShapeOutline::Ellipse), "O");
    assert_eq!(shape_kind_glyph(ShapeOutline::Polygon { vertex_count: 3 }), "^");
    assert_eq!(shape_kind_glyph(ShapeOutline::Polygon { vertex_count: 4 }), "#");
    assert_eq!(shape_kind_glyph(ShapeOutline::Polygon { vertex_count: 7 }), "P");
}

#[test]
fn the_properties_panel_follows_the_selection() {
    let none = Selection { clip: None, text_clip: None, shape_clip: None };
    assert_eq!(properties_view(&none, PropertiesTab::Effects), PropertiesView::EffectsBrowser);
    assert_eq!(properties_view(&none, PropertiesTab::Inspector), PropertiesView::ClipProperties);
    let text = Selection { text_clip: Some(4), ..none };
    assert_eq!(properties_view(&text, PropertiesTab::Effects), PropertiesView::TextClip(4));
    let shape = Selection { shape_clip: Some(6), ..none };
    assert_eq!(properties_view(&shape, PropertiesTab::Audio), PropertiesView::ShapeClip(6));
    let clip = Selection { clip: Some(1), ..none };
    assert_eq!(properties_view(&clip, PropertiesTab::Effects), PropertiesView::ClipProperties);
}

#[test]
fn the_sequence_menu_keeps_moves_inside_the_tab_strip() {
    assert_eq!(
        sequence_menu(0, 1),
        SequenceMenu { move_left_to: None, move_right_to: None, can_delete: false }
    );
    assert_eq!(
        sequence_menu(1, 3),
        SequenceMenu { move_left_to: Some(0), move_right_to: Some(2), can_delete: true }
    );
    assert_eq!(other_sequences(&vec![5, 8, 9], 8), vec![0, 2]);
}

#[test]
fn clip_requests_run_in_the_editors_order() {
    let commands = ClipCommands {
        deletes: vec![1],
        color_labels: vec![(2, None)],
        detach_audio: vec![3],
        speed_ramp_clips: vec![4, 5],
        custom_speed_ramp: Some(6),
        split_at_playhead: true,
    };
    assert_eq!(
        apply_clip_commands(&commands),
        vec![
            ClipAction::DeleteClip(1),
            ClipAction::SetColorLabel(2, None),
            ClipAction::DetachAudio(3),
            ClipAction::ApplySpeedRamp(0, 4),
            ClipAction::ApplySpeedRamp(1, 5),
            ClipAction::OpenCustomSpeedRamp(6),
            ClipAction::SplitAtPlayhead,
        ]
    );
}

#[test]
fn changing_font_family_drops_what_the_new_family_cannot_do() {
    assert_eq!(
        after_font_family_change(TextFontStyle::Bold, Some(700), false, false),
        (TextFontStyle::Regular, None)
    );
    assert_eq!(
        after_font_family_change(TextFontStyle::Bold, Some(700), true, true),
        (TextFontStyle::Bold, Some(700))
    );
    assert_eq!(shown_font_weight(None), 400);
    assert_eq!(shown_font_weight(Some(650)), 650);
}

#[test]
fn the_background_checkbox_reads_back_what_it_set() {
    let on = set_text_background_enabled([10, 20, 30, 0], true);
    assert_eq!(on, [10, 20, 30, 192]);
    assert!(text_background_enabled(on));
    let off = set_text_background_enabled(on, false);
    assert_eq!(off, [10, 20, 30, 0]);
    assert!(!text_background_enabled(off));
}

#[test]
fn custom_is_only_offered_when_it_is_current() {
    assert_eq!(shape_preset_options(ShapePreset::Arrow).len(), 5);
    let with_custom = shape_preset_options(ShapePreset::Custom);
    assert_eq!(with_custom.len(), 6);
    assert_eq!(with_custom[5], ShapePreset::Custom);
}

#[test]
fn clip_menu_of_a_compound_video_clip() {
    let entries = clip_menu_entries(TrackKind::Video, true, true, false, true, 2);
    assert_eq!(
        entries,
        ClipMenuEntries {
            split_enabled: true,
            paste_enabled: false,
            merge_enabled: true,
            show_detach_audio: true,
            show_create_compound: false,
            show_open_compound: true,
            paste_formatting_enabled: true,
        }
    );
}

#[test]
fn clip_menu_of_an_audio_clip_hides_video_entries() {
    let entries = clip_menu_entries(TrackKind::Audio, false, false, true, false, 1);
    assert!(!entries.split_enabled);
    assert!(entries.paste_enabled);
    assert!(!entries.merge_enabled);
    assert!(!entries.show_detach_audio);
    assert!(!entries.show_create_compound);
    assert!(!entries.show_open_compound);
    assert!(!entries.paste_formatting_enabled);
}

#[test]
fn property_sections_follow_tab_track_kind_and_audio_role() {
    let video_inspector =
        clip_property_sections(PropertiesTab::Inspector, Some(TrackKind::Video), None, false);
    assert!(video_inspector.speed && video_inspector.crop && video_inspector.transform);
    assert!(!video_inspector.gain && !video_inspector.effects && !video_inspector.freeze);

    let video_effects =
        clip_property_sections(PropertiesTab::Effects, Some(TrackKind::Video), None, false);
    assert!(video_effects.freeze && video_effects.deflicker && video_effects.effects);
    assert!(!video_effects.crop && !video_effects.speed);

    let audio_effects =
        clip_property_sections(PropertiesTab::Effects, Some(TrackKind::Audio), None, false);
    assert_eq!(
        audio_effects,
        ClipPropertySections {
            gain: false,
            freeze: false,
            deflicker: false,
            speed: false,
            voice_cleanup_hint: false,
            voice_cleanup: false,
            voice_cleanup_preview: false,
            crop: false,
            transform: false,
            effects: false,
        }
    );

    let mic_off = clip_property_sections(
        PropertiesTab::Audio,
        Some(TrackKind::Audio),
        Some(AudioRole::Mic),
        false,
    );
    assert!(mic_off.gain && mic_off.voice_cleanup && mic_off.voice_cleanup_hint);
    assert!(!mic_off.voice_cleanup_preview);

    let mic_on = clip_property_sections(
        PropertiesTab::Audio,
        Some(TrackKind::Audio),
        Some(AudioRole::Mic),
        true,
    );
    assert!(!mic_on.voice_cleanup_hint && mic_on.voice_cleanup_preview);

    let music = clip_property_sections(
        PropertiesTab::Audio,
        Some(TrackKind::Audio),
        Some(AudioRole::Music),
        false,
    );
    assert!(!music.voice_cleanup_hint && music.voice_cleanup);

    let video_audio_tab =
        clip_property_sections(PropertiesTab::Audio, Some(TrackKind::Video), None, true);
    assert!(video_audio_tab.gain && !video_audio_tab.voice_cleanup);
}

#[test]
fn graphic_edits_commit_with_one_snapshot_then_refresh_or_rebuild() {
    assert!(graphic_commit_steps(GraphicKind::Text, 9, false, false).is_empty());
    assert_eq!(
        graphic_commit_steps(GraphicKind::Text, 9, true, false),
        vec![
            GraphicCommitStep::PushUndoSnapshotForDrag,
            GraphicCommitStep::StoreGraphic(GraphicKind::Text, 9),
            GraphicCommitStep::RefreshPreviewContent(GraphicKind::Text, 9),
        ]
    );
    assert_eq!(
        graphic_commit_steps(GraphicKind::Shape, 4, true, true),
        vec![
            GraphicCommitStep::PushUndoSnapshotForDrag,
            GraphicCommitStep::StoreGraphic(GraphicKind::Shape, 4),
            GraphicCommitStep::InvalidatePreviewRendering,
        ]
    );
}
