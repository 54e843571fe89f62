use vstd::prelude::*;
use vstd::string::*;

use crate::locale::Locale;

verus! {

/// A `Copy`-friendly stand-in for a shape overlay's outline: the fixed presets the shape
/// picker offers, plus `Custom` for a polygon that matches none of them.
#[derive(Clone, Copy, Debug, PartialEq, Eq, Structural)]
pub enum ShapePreset {
    Ellipse,
    Rectangle,
    Triangle,
    Trapezoid,
    Arrow,
    Custom,
}

/// The text the shape picker shows for `preset` in `locale`.
pub open spec fn shape_preset_text(preset: ShapePreset, locale: Locale) -> Seq<char> {
    match locale {
        Locale::En => match preset {
            ShapePreset::Ellipse => "Ellipse"@,
            ShapePreset::Rectangle => "Rectangle"@,
            ShapePreset::Triangle => "Triangle"@,
            ShapePreset::Trapezoid => "Trapezoid"@,
            ShapePreset::Arrow => "Arrow"@,
            ShapePreset::Custom => "Custom"@,
        },
        Locale::PtBr => match preset {
            ShapePreset::Ellipse => "Elipse"@,
            ShapePreset::Rectangle => "Retângulo"@,
            ShapePreset::Triangle => "Triângulo"@,
            ShapePreset::Trapezoid => "Trapézio"@,
            ShapePreset::Arrow => "Seta"@,
            ShapePreset::Custom => "Personalizado"@,
        },
    }
}

/// The localized label of a shape preset.
pub fn shape_preset_label(preset: ShapePreset, locale: Locale) -> (label: String)
    ensures
        label@ == shape_preset_text(preset, locale),
{
    let text: &str = match locale {
        Locale::En => match preset {
            ShapePreset::Ellipse => "Ellipse",
            ShapePreset::Rectangle => "Rectangle",
            ShapePreset::Triangle => "Triangle",
            ShapePreset::Trapezoid => "Trapezoid",
            ShapePreset::Arrow => "Arrow",
            ShapePreset::Custom => "Custom",
        },
        Locale::PtBr => match preset {
            ShapePreset::Ellipse => "Elipse",
            ShapePreset::Rectangle => "Retângulo",
            ShapePreset::Triangle => "Triângulo",
            ShapePreset::Trapezoid => "Trapézio",
            ShapePreset::Arrow => "Seta",
            ShapePreset::Custom => "Personalizado",
        },
    };
    String::from_str(text)
}

/// Every shape preset has a non-empty label, and no two presets share a label, in either
/// locale.
pub proof fn lemma_shape_preset_labels_distinct(locale: Locale, a: ShapePreset, b: ShapePreset)
    ensures
        shape_preset_text(a, locale).len() > 0,
        a != b ==> shape_preset_text(a, locale) != shape_preset_text(b, locale),
{
    reveal_strlit("Ellipse");
    reveal_strlit("Rectangle");
    reveal_strlit("Triangle");
    reveal_strlit("Trapezoid");
    reveal_strlit("Arrow");
    reveal_strlit("Custom");
    reveal_strlit("Elipse");
    reveal_strlit("Retângulo");
    reveal_strlit("Triângulo");
    reveal_strlit("Trapézio");
    reveal_strlit("Seta");
    reveal_strlit("Personalizado");
    let ta = shape_preset_text(a, locale);
    let tb = shape_preset_text(b, locale);
    if a != b {
        assert(ta.len() != tb.len() || ta[0] != tb[0]);
    }
}


/// Which audio source a Video or Audio track carries.
#[derive(Clone, Copy, Debug, PartialEq, Eq, Structural)]
pub enum AudioRole {
    Unspecified,
    GameAudio,
    Mic,
    Music,
}

/// The one-glyph icon the track header's audio-role picker shows for `role`.
pub open spec fn audio_role_icon_text(role: AudioRole) -> Seq<char> {
    match role {
        AudioRole::Unspecified => "-"@,
        AudioRole::GameAudio => "G"@,
        AudioRole::Mic => "V"@,
        AudioRole::Music => "N"@,
    }
}

/// The localized name of `role`, shown as the picker's hover text.
pub open spec fn audio_role_text(role: AudioRole, locale: Locale) -> Seq<char> {
    match locale {
        Locale::En => match role {
            AudioRole::Unspecified => "Unspecified"@,
            AudioRole::GameAudio => "Game audio"@,
            AudioRole::Mic => "Voice (mic)"@,
            AudioRole::Music => "Music"@,
        },
        Locale::PtBr => match role {
            AudioRole::Unspecified => "Não especificado"@,
            AudioRole::GameAudio => "Áudio do jogo"@,
            AudioRole::Mic => "Voz (microfone)"@,
            AudioRole::Music => "Música"@,
        },
    }
}

/// The track header's icon for an audio role.
pub fn audio_role_icon(role: AudioRole) -> (icon: &'static str)
    ensures
        icon@ == audio_role_icon_text(role),
{
    match role {
        AudioRole::Unspecified => "-",
        AudioRole::GameAudio => "G",
        AudioRole::Mic => "V",
        AudioRole::Music => "N",
    }
}

/// The localized name of an audio role.
pub fn audio_role_label(role: AudioRole, locale: Locale) -> (label: &'static str)
    ensures
        label@ == audio_role_text(role, locale),
{
    match locale {
        Locale::En => match role {
            AudioRole::Unspecified => "Unspecified",
            AudioRole::GameAudio => "Game audio",
            AudioRole::Mic => "Voice (mic)",
            AudioRole::Music => "Music",
        },
        Locale::PtBr => match role {
            AudioRole::Unspecified => "Não especificado",
            AudioRole::GameAudio => "Áudio do jogo",
            AudioRole::Mic => "Voz (microfone)",
            AudioRole::Music => "Música",
        },
    }
}

/// Every audio role has a non-empty icon, and no two roles share one.
pub proof fn lemma_audio_role_icons_distinct(a: AudioRole, b: AudioRole)
    ensures
        audio_role_icon_text(a).len() > 0,
        a != b ==> audio_role_icon_text(a) != audio_role_icon_text(b),
{
    reveal_strlit("-");
    reveal_strlit("G");
    reveal_strlit("V");
    reveal_strlit("N");
    let ta = audio_role_icon_text(a);
    let tb = audio_role_icon_text(b);
    if a != b {
        assert(ta[0] != tb[0]);
    }
}

/// Every audio role has a non-empty label, and no two roles share a label, in either locale.
pub proof fn lemma_audio_role_labels_distinct(locale: Locale, a: AudioRole, b: AudioRole)
    ensures
        audio_role_text(a, locale).len() > 0,
        a != b ==> audio_role_text(a, locale) != audio_role_text(b, locale),
{
    reveal_strlit("Unspecified");
    reveal_strlit("Game audio");
    reveal_strlit("Voice (mic)");
    reveal_strlit("Music");
    reveal_strlit("Não especificado");
    reveal_strlit("Áudio do jogo");
    reveal_strlit("Voz (microfone)");
    reveal_strlit("Música");
    let ta = audio_role_text(a, locale);
    let tb = audio_role_text(b, locale);
    if a != b {
        assert(ta.len() != tb.len() || ta[0] != tb[0]);
    }
}

/// The shape a clip's mask cuts its picture to.
#[derive(Clone, Copy, Debug, PartialEq, Eq, Structural)]
pub enum MaskShape {
    NoMask,
    Circle,
    RoundedRect,
}

/// The localized name of a mask shape.
pub open spec fn mask_shape_text(shape: MaskShape, locale: Locale) -> Seq<char> {
    match locale {
        Locale::En => match shape {
            MaskShape::NoMask => "None"@,
            MaskShape::Circle => "Circle"@,
            MaskShape::RoundedRect => "Rounded rectangle"@,
        },
        Locale::PtBr => match shape {
            MaskShape::NoMask => "Nenhuma"@,
            MaskShape::Circle => "Círculo"@,
            MaskShape::RoundedRect => "Retângulo arredondado"@,
        },
    }
}

/// The mask picker's label for `shape`.
pub fn mask_shape_label(shape: MaskShape, locale: Locale) -> (label: String)
    ensures
        label@ == mask_shape_text(shape, locale),
{
    let text: &str = match locale {
        Locale::En => match shape {
            MaskShape::NoMask => "None",
            MaskShape::Circle => "Circle",
            MaskShape::RoundedRect => "Rounded rectangle",
        },
        Locale::PtBr => match shape {
            MaskShape::NoMask => "Nenhuma",
            MaskShape::Circle => "Círculo",
            MaskShape::RoundedRect => "Retângulo arredondado",
        },
    };
    String::from_str(text)
}

/// A look applied to a clip's colors.
#[derive(Clone, Copy, Debug, PartialEq, Eq, Structural)]
pub enum ColorFilter {
    NoFilter,
    BlackAndWhite,
    Sepia,
}

/// The localized name of a color filter.
pub open spec fn color_filter_text(filter: ColorFilter, locale: Locale) -> Seq<char> {
    match locale {
        Locale::En => match filter {
            ColorFilter::NoFilter => "None"@,
            ColorFilter::BlackAndWhite => "Black & white"@,
            ColorFilter::Sepia => "Sepia"@,
        },
        Locale::PtBr => match filter {
            ColorFilter::NoFilter => "Nenhum"@,
            ColorFilter::BlackAndWhite => "Preto e branco"@,
            ColorFilter::Sepia => "Sépia"@,
        },
    }
}

/// The color-filter picker's label for `filter`.
pub fn color_filter_label(filter: ColorFilter, locale: Locale) -> (label: String)
    ensures
        label@ == color_filter_text(filter, locale),
{
    let text: &str = match locale {
        Locale::En => match filter {
            ColorFilter::NoFilter => "None",
            ColorFilter::BlackAndWhite => "Black & white",
            ColorFilter::Sepia => "Sepia",
        },
        Locale::PtBr => match filter {
            ColorFilter::NoFilter => "Nenhum",
            ColorFilter::BlackAndWhite => "Preto e branco",
            ColorFilter::Sepia => "Sépia",
        },
    };
    String::from_str(text)
}

/// The translucent unmultiplied RGBA tint drawn over a timeline block to hint at its color
/// filter: nothing for `NoFilter`, a grey wash for black & white, a brown one for sepia.
pub fn color_filter_tint(filter: ColorFilter) -> (tint: Option<[u8; 4]>)
    ensures
        filter == ColorFilter::NoFilter ==> tint is None,
        filter == ColorFilter::BlackAndWhite ==> tint == Some([128u8, 128u8, 128u8, 90u8]),
        filter == ColorFilter::Sepia ==> tint == Some([180u8, 130u8, 60u8, 70u8]),
{
    match filter {
        ColorFilter::NoFilter => None,
        ColorFilter::BlackAndWhite => Some([128u8, 128u8, 128u8, 90u8]),
        ColorFilter::Sepia => Some([180u8, 130u8, 60u8, 70u8]),
    }
}

/// How a clip enters over the clip before it.
#[derive(Clone, Copy, Debug, PartialEq, Eq, Structural)]
pub enum TransitionType {
    NoTransition,
    Fade,
    HardCut,
    Slide,
    Zoom,
}

/// The localized name of a transition.
pub open spec fn transition_type_text(transition: TransitionType, locale: Locale) -> Seq<char> {
    match locale {
        Locale::En => match transition {
            TransitionType::NoTransition => "None"@,
            TransitionType::Fade => "Fade"@,
            TransitionType::HardCut => "Hard cut"@,
            TransitionType::Slide => "Slide"@,
            TransitionType::Zoom => "Zoom"@,
        },
        Locale::PtBr => match transition {
            TransitionType::NoTransition => "Nenhuma"@,
            TransitionType::Fade => "Esmaecer"@,
            TransitionType::HardCut => "Corte seco"@,
            TransitionType::Slide => "Deslizar"@,
            TransitionType::Zoom => "Zoom"@,
        },
    }
}

/// The transition picker's label for `transition`.
pub fn transition_type_label(transition: TransitionType, locale: Locale) -> (label: String)
    ensures
        label@ == transition_type_text(transition, locale),
{
    let text: &str = match locale {
        Locale::En => match transition {
            TransitionType::NoTransition => "None",
            TransitionType::Fade => "Fade",
            TransitionType::HardCut => "Hard cut",
            TransitionType::Slide => "Slide",
            TransitionType::Zoom => "Zoom",
        },
        Locale::PtBr => match transition {
            TransitionType::NoTransition => "Nenhuma",
            TransitionType::Fade => "Esmaecer",
            TransitionType::HardCut => "Corte seco",
            TransitionType::Slide => "Deslizar",
            TransitionType::Zoom => "Zoom",
        },
    };
    String::from_str(text)
}

/// A text graphic's font weight.
#[derive(Clone, Copy, Debug, PartialEq, Eq, Structural)]
pub enum TextFontStyle {
    Regular,
    Bold,
}

/// The localized name of a font weight.
pub open spec fn text_font_style_text(style: TextFontStyle, locale: Locale) -> Seq<char> {
    match locale {
        Locale::En => match style {
            TextFontStyle::Regular => "Regular"@,
            TextFontStyle::Bold => "Bold"@,
        },
        Locale::PtBr => match style {
            TextFontStyle::Regular => "Regular"@,
            TextFontStyle::Bold => "Negrito"@,
        },
    }
}

/// The font-weight picker's label for `style`.
pub fn text_font_style_label(style: TextFontStyle, locale: Locale) -> (label: &'static str)
    ensures
        label@ == text_font_style_text(style, locale),
{
    match locale {
        Locale::En => match style {
            TextFontStyle::Regular => "Regular",
            TextFontStyle::Bold => "Bold",
        },
        Locale::PtBr => match style {
            TextFontStyle::Regular => "Regular",
            TextFontStyle::Bold => "Negrito",
        },
    }
}

/// A text graphic's writing direction.
#[derive(Clone, Copy, Debug, PartialEq, Eq, Structural)]
pub enum TextDirection {
    Auto,
    Ltr,
    Rtl,
}

/// The localized name of a writing direction.
pub open spec fn text_direction_text(direction: TextDirection, locale: Locale) -> Seq<char> {
    match locale {
        Locale::En => match direction {
            TextDirection::Auto => "Auto"@,
            TextDirection::Ltr => "Left to right"@,
            TextDirection::Rtl => "Right to left"@,
        },
        Locale::PtBr => match direction {
            TextDirection::Auto => "Automática"@,
            TextDirection::Ltr => "Esquerda para direita"@,
            TextDirection::Rtl => "Direita para esquerda"@,
        },
    }
}

/// The direction picker's label for `direction`.
pub fn text_direction_label(direction: TextDirection, locale: Locale) -> (label: &'static str)
    ensures
        label@ == text_direction_text(direction, locale),
{
    match locale {
        Locale::En => match direction {
            TextDirection::Auto => "Auto",
            TextDirection::Ltr => "Left to right",
            TextDirection::Rtl => "Right to left",
        },
        Locale::PtBr => match direction {
            TextDirection::Auto => "Automática",
            TextDirection::Ltr => "Esquerda para direita",
            TextDirection::Rtl => "Direita para esquerda",
        },
    }
}

/// A text graphic's horizontal alignment.
#[derive(Clone, Copy, Debug, PartialEq, Eq, Structural)]
pub enum TextAlign {
    Auto,
    Left,
    Center,
    Right,
    Start,
    End,
}

/// The localized name of an alignment.
pub open spec fn text_align_text(align: TextAlign, locale: Locale) -> Seq<char> {
    match locale {
        Locale::En => match align {
            TextAlign::Auto => "Auto"@,
            TextAlign::Left => "Left"@,
            TextAlign::Center => "Center"@,
            TextAlign::Right => "Right"@,
            TextAlign::Start => "Start"@,
            TextAlign::End => "End"@,
        },
        Locale::PtBr => match align {
            TextAlign::Auto => "Automático"@,
            TextAlign::Left => "Esquerda"@,
            TextAlign::Center => "Centro"@,
            TextAlign::Right => "Direita"@,
            TextAlign::Start => "Início"@,
            TextAlign::End => "Fim"@,
        },
    }
}

/// The alignment picker's label for `align`.
pub fn text_align_label(align: TextAlign, locale: Locale) -> (label: &'static str)
    ensures
        label@ == text_align_text(align, locale),
{
    match locale {
        Locale::En => match align {
            TextAlign::Auto => "Auto",
            TextAlign::Left => "Left",
            TextAlign::Center => "Center",
            TextAlign::Right => "Right",
            TextAlign::Start => "Start",
            TextAlign::End => "End",
        },
        Locale::PtBr => match align {
            TextAlign::Auto => "Automático",
            TextAlign::Left => "Esquerda",
            TextAlign::Center => "Centro",
            TextAlign::Right => "Direita",
            TextAlign::Start => "Início",
            TextAlign::End => "Fim",
        },
    }
}

/// The heading a font family is grouped under in the font picker.
#[derive(Clone, Copy, Debug, PartialEq, Eq, Structural)]
pub enum FontCategory {
    Sans,
    Display,
    Serif,
    Handwritten,
    Monospace,
    International,
}

/// The localized name of a font category.
pub open spec fn font_category_text(category: FontCategory, locale: Locale) -> Seq<char> {
    match locale {
        Locale::En => match category {
            FontCategory::Sans => "Sans serif"@,
            FontCategory::Display => "Display"@,
            FontCategory::Serif => "Serif"@,
            FontCategory::Handwritten => "Handwritten"@,
            FontCategory::Monospace => "Monospace"@,
            FontCategory::International => "International"@,
        },
        Locale::PtBr => match category {
            FontCategory::Sans => "Sem serifa"@,
            FontCategory::Display => "Decorativa"@,
            FontCategory::Serif => "Serifada"@,
            FontCategory::Handwritten => "Manuscrita"@,
            FontCategory::Monospace => "Monoespaçada"@,
            FontCategory::International => "Internacional"@,
        },
    }
}

/// The font picker's heading for `category`.
pub fn font_category_label(category: FontCategory, locale: Locale) -> (label: &'static str)
    ensures
        label@ == font_category_text(category, locale),
{
    match locale {
        Locale::En => match category {
            FontCategory::Sans => "Sans serif",
            FontCategory::Display => "Display",
            FontCategory::Serif => "Serif",
            FontCategory::Handwritten => "Handwritten",
            FontCategory::Monospace => "Monospace",
            FontCategory::International => "International",
        },
        Locale::PtBr => match category {
            FontCategory::Sans => "Sem serifa",
            FontCategory::Display => "Decorativa",
            FontCategory::Serif => "Serifada",
            FontCategory::Handwritten => "Manuscrita",
            FontCategory::Monospace => "Monoespaçada",
            FontCategory::International => "Internacional",
        },
    }
}

} // verus!
