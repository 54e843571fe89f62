use oca_editor::font_picker::{
    family_matches_search, font_picker_groups, font_search_needle, text_font_family_label,
    FontCatalogEntry, FontFamilyEntry, TextFontFamily,
};
use oca_editor::labels::FontCategory;
use oca_editor::locale::Locale;

fn family(label: &str, id: &str, category: FontCategory, tags: &[&str]) -> FontFamilyEntry {
    FontFamilyEntry {
        label: label.to_string(),
        catalog: Some(FontCatalogEntry {
            family_id: id.to_string(),
            category,
            tags: tags.iter().map(|t| t.to_string()).collect(),
        }),
    }
}

fn families() -> Vec<FontFamilyEntry> {
    vec![
        family("Montserrat", "montserrat", FontCategory::Sans, &["geometric"]),
        family("Fira Code", "fira-code", FontCategory::Monospace, &["mono", "code"]),
        family("Lora", "lora", FontCategory::Serif, &[]),
        family("Inter", "inter", FontCategory::Sans, &["ui"]),
        FontFamilyEntry { label: "Mystery".to_string(), catalog: None },
    ]
}

#[test]
fn the_needle_is_trimmed_and_lowercased() {
    assert_eq!(font_search_needle("  MoNo \t"), "mono");
    assert_eq!(font_search_needle("   "), "");
}

#[test]
fn families_match_by_label_id_or_tag() {
    let list = families();
    assert!(family_matches_search(&list[0], "montS".to_lowercase().as_str()));
    assert!(family_matches_search(&list[1], "mono"));
    assert!(family_matches_search(&list[1], "fira-"));
    assert!(!family_matches_search(&list[2], "mono"));
    assert!(family_matches_search(&list[4], ""));
    assert!(!family_matches_search(&list[4], "myst-"));
}

#[test]
fn labels_are_matched_after_lowercasing() {
    let list = families();
    assert!(family_matches_search(&list[4], "mystery"));
}

#[test]
fn groups_follow_the_fixed_category_order_and_skip_empty_headings() {
    let groups = font_picker_groups(&families(), "");
    let summary: Vec<(FontCategory, Vec<usize>)> =
        groups.into_iter().map(|g| (g.category, g.members)).collect();
    assert_eq!(
        summary,
        vec![
            (FontCategory::Sans, vec![0, 3, 4]),
            (FontCategory::Serif, vec![2]),
            (FontCategory::Monospace, vec![1]),
        ]
    );
    let groups = font_picker_groups(&families(), "code");
    assert_eq!(groups.len(), 1);
    assert_eq!(groups[0].category, FontCategory::Monospace);
}

#[test]
fn family_labels_name_unknown_fonts_visibly() {
    let unknown = TextFontFamily::Unknown("comic-x".to_string());
    assert_eq!(text_font_family_label(&unknown, None, Locale::En), "Unknown font (comic-x)");
    let catalog = TextFontFamily::Catalog("inter".to_string());
    assert_eq!(text_font_family_label(&catalog, Some("Inter"), Locale::PtBr), "Inter");
    assert_eq!(text_font_family_label(&catalog, None, Locale::PtBr), "Lato");
    assert_eq!(
        text_font_family_label(&TextFontFamily::BebasNeue, None, Locale::En),
        "Bebas Neue · Display"
    );
}
