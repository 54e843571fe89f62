use oca_editor::labels::{
    color_filter_label, color_filter_tint, font_category_label, mask_shape_label,
    shape_preset_label, text_align_label, text_direction_label, text_font_style_label,
    transition_type_label, ColorFilter, FontCategory, MaskShape, ShapePreset, TextAlign,
    TextDirection, TextFontStyle, TransitionType,
};
use oca_editor::locale::Locale;

#[test]
fn shape_preset_labels_are_localized() {
    assert_eq!(shape_preset_label(ShapePreset::Ellipse, Locale::En), "Ellipse");
    assert_eq!(shape_preset_label(ShapePreset::Rectangle, Locale::PtBr), "Retângulo");
    assert_eq!(shape_preset_label(ShapePreset::Custom, Locale::PtBr), "Personalizado");
}

#[test]
fn color_filter_tint_draws_nothing_without_a_filter() {
    assert_eq!(color_filter_tint(ColorFilter::NoFilter), None);
    assert_eq!(color_filter_tint(ColorFilter::BlackAndWhite), Some([128, 128, 128, 90]));
    assert_eq!(color_filter_tint(ColorFilter::Sepia), Some([180, 130, 60, 70]));
}

#[test]
fn picker_labels_match_their_variants() {
    assert_eq!(mask_shape_label(MaskShape::RoundedRect, Locale::En), "Rounded rectangle");
    assert_eq!(color_filter_label(ColorFilter::BlackAndWhite, Locale::PtBr), "Preto e branco");
    assert_eq!(transition_type_label(TransitionType::HardCut, Locale::En), "Hard cut");
    assert_eq!(text_font_style_label(TextFontStyle::Bold, Locale::PtBr), "Negrito");
    assert_eq!(text_direction_label(TextDirection::Rtl, Locale::En), "Right to left");
    assert_eq!(text_align_label(TextAlign::Start, Locale::PtBr), "Início");
    assert_eq!(font_category_label(FontCategory::Monospace, Locale::En), "Monospace");
}

#[test]
fn every_label_set_is_distinct_per_locale() {
    for locale in [Locale::PtBr, Locale::En] {
        let mut aligns: Vec<&str> = [
            TextAlign::Auto,
            TextAlign::Left,
            TextAlign::Center,
            TextAlign::Right,
            TextAlign::Start,
            TextAlign::End,
        ]
        .iter()
        .map(|&a| text_align_label(a, locale))
        .collect();
        aligns.sort_unstable();
        aligns.dedup();
        assert_eq!(aligns.len(), 6);
        let mut categories: Vec<&str> = [
            FontCategory::Sans,
            FontCategory::Display,
            FontCategory::Serif,
            FontCategory::Handwritten,
            FontCategory::Monospace,
            FontCategory::International,
        ]
        .iter()
        .map(|&c| font_category_label(c, locale))
        .collect();
        categories.sort_unstable();
        categories.dedup();
        assert_eq!(categories.len(), 6);
    }
}
