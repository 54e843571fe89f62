use vstd::prelude::*;
use vstd::string::*;

use crate::labels::FontCategory;
use crate::locale::Locale;
use crate::text::{
    char_is_whitespace, chars_of, contains_chars, is_blank, is_white_space, lowercase, text_contains,
    to_lowercase,
};

verus! {

/// The index of the first non-white-space character of `s` at or after `i` (or `s.len()`).
pub open spec fn skip_white(s: Seq<char>, i: int) -> int
    decreases s.len() - i,
{
    if i >= s.len() || i < 0 {
        s.len() as int
    } else if is_white_space(s[i]) {
        skip_white(s, i + 1)
    } else {
        i
    }
}

/// One past the last non-white-space character of `s` before `j`, stopping at `lo`.
pub open spec fn back_white(s: Seq<char>, lo: int, j: int) -> int
    decreases j - lo,
{
    if j <= lo {
        lo
    } else if is_white_space(s[j - 1]) {
        back_white(s, lo, j - 1)
    } else {
        j
    }
}

/// `s` with leading and trailing white space removed, as `str::trim` gives it.
pub open spec fn trimmed(s: Seq<char>) -> Seq<char> {
    let start = skip_white(s, 0);
    s.subrange(start, back_white(s, start, s.len() as int))
}

/// `skip_white(s, i)` stops at the first non-white-space character at or after `i`, and
/// reaches the end exactly when everything from `i` on is white space.
proof fn lemma_skip_white(s: Seq<char>, i: int)
    requires
        0 <= i <= s.len(),
    ensures
        i <= skip_white(s, i) <= s.len(),
        skip_white(s, i) < s.len() ==> !is_white_space(s[skip_white(s, i)]),
        skip_white(s, i) == s.len() <==> forall|k: int| i <= k < s.len() ==> is_white_space(
            #[trigger] s[k],
        ),
    decreases s.len() - i,
{
    if i < s.len() && is_white_space(s[i]) {
        lemma_skip_white(s, i + 1);
        if skip_white(s, i) == s.len() {
            assert forall|k: int| i <= k < s.len() implies is_white_space(#[trigger] s[k]) by {
                if k > i {
                    assert(i + 1 <= k);
                }
            }
        }
    }
}

/// Scanning back from `j` never passes a non-white-space character at `lo`.
proof fn lemma_back_white_past(s: Seq<char>, lo: int, j: int)
    requires
        0 <= lo < j <= s.len(),
        !is_white_space(s[lo]),
    ensures
        lo < back_white(s, lo, j) <= j,
    decreases j - lo,
{
    if is_white_space(s[j - 1]) {
        lemma_back_white_past(s, lo, j - 1);
    }
}

/// A string trims to nothing exactly when it is all white space.
proof fn lemma_trimmed_empty(s: Seq<char>)
    ensures
        trimmed(s).len() == 0 <==> is_blank(s),
{
    lemma_skip_white(s, 0);
    let start = skip_white(s, 0);
    if start < s.len() {
        lemma_back_white_past(s, start, s.len() as int);
        assert(!is_white_space(s[start]));
    } else {
        assert(back_white(s, start, s.len() as int) == start);
    }
}

/// The font picker's search needle for what the user typed: trimmed, then lowercased. A
/// query of nothing but white space gives the empty needle, which every family matches.
pub fn font_search_needle(query: &str) -> (needle: String)
    ensures
        needle@ == lowercase(trimmed(query@)),
        needle@.len() == 0 <==> is_blank(query@),
{
    let chars = chars_of(query);
    let n = chars.len();
    let mut start: usize = 0;
    while start < n && char_is_whitespace(chars[start])
        invariant
            chars@ == query@,
            n == chars@.len(),
            start <= n,
            skip_white(query@, start as int) == skip_white(query@, 0),
        decreases n - start,
    {
        start = start + 1;
    }
    let mut end: usize = n;
    while end > start && char_is_whitespace(chars[end - 1])
        invariant
            chars@ == query@,
            n == chars@.len(),
            start <= end <= n,
            skip_white(query@, 0) == start,
            back_white(query@, start as int, end as int) == back_white(
                query@,
                start as int,
                n as int,
            ),
        decreases end - start,
    {
        end = end - 1;
    }
    let trimmed_query = query.substring_char(start, end);
    proof {
        lemma_trimmed_empty(query@);
    }
    to_lowercase(trimmed_query)
}

/// What the font catalog says of a font family.
pub struct FontCatalogEntry {
    pub family_id: String,
    pub category: FontCategory,
    pub tags: Vec<String>,
}

/// A font family as the picker lists it: its display label and its catalog entry, if the
/// catalog knows it.
pub struct FontFamilyEntry {
    pub label: String,
    pub catalog: Option<FontCatalogEntry>,
}

/// Whether some tag contains `needle`.
pub open spec fn some_tag_contains(tags: Seq<String>, needle: Seq<char>) -> bool {
    exists|i: int| 0 <= i < tags.len() && text_contains(#[trigger] tags[i]@, needle)
}

/// A family matches the (trimmed, lowercased) search needle when the needle is empty, or
/// occurs in its lowercased label, or in its catalog id or one of its catalog tags.
pub open spec fn family_matches(family: FontFamilyEntry, needle: Seq<char>) -> bool {
    ||| needle.len() == 0
    ||| text_contains(lowercase(family.label@), needle)
    ||| family.catalog matches Some(entry) && (text_contains(entry.family_id@, needle)
        || some_tag_contains(entry.tags@, needle))
}

/// What makes a family match a search: the empty needle always matches; otherwise a family
/// matches exactly when the needle occurs in its lowercased label, in its catalog id, or in
/// any one of its catalog tags, the last tag as much as the first.
pub proof fn lemma_family_match_sources(family: FontFamilyEntry, needle: Seq<char>)
    ensures
        needle.len() == 0 ==> family_matches(family, needle),
        text_contains(lowercase(family.label@), needle) ==> family_matches(family, needle),
        family.catalog matches Some(entry) ==> (text_contains(entry.family_id@, needle)
            ==> family_matches(family, needle)),
        family.catalog matches Some(entry) ==> forall|i: int|
            0 <= i < entry.tags@.len() && text_contains(#[trigger] entry.tags@[i]@, needle)
                ==> family_matches(family, needle),
        family_matches(family, needle) ==> (needle.len() == 0 || text_contains(
            lowercase(family.label@),
            needle,
        ) || (family.catalog matches Some(entry) && (text_contains(entry.family_id@, needle)
            || exists|i: int|
            0 <= i < entry.tags@.len() && text_contains(#[trigger] entry.tags@[i]@, needle)))),
{
}

/// Whether `family` matches the search `needle`.
pub fn family_matches_search(family: &FontFamilyEntry, needle: &str) -> (matches: bool)
    ensures
        matches == family_matches(*family, needle@),
        family.catalog matches Some(entry) ==> forall|i: int|
            0 <= i < entry.tags@.len() && text_contains(#[trigger] entry.tags@[i]@, needle@)
                ==> matches,
{
    proof {
        lemma_family_match_sources(*family, needle@);
    }
    let needle_chars = chars_of(needle);
    if needle_chars.len() == 0 {
        return true;
    }
    let label_lower = to_lowercase(family.label.as_str());
    if contains_chars(&chars_of(label_lower.as_str()), &needle_chars) {
        return true;
    }
    match &family.catalog {
        None => false,
        Some(entry) => {
            if contains_chars(&chars_of(entry.family_id.as_str()), &needle_chars) {
                return true;
            }
            let mut i: usize = 0;
            while i < entry.tags.len()
                invariant
                    i <= entry.tags@.len(),
                    needle_chars@ == needle@,
                    family.catalog == Some(*entry),
                    forall|j: int| 0 <= j < i ==> !text_contains(#[trigger] entry.tags@[j]@, needle@),
                decreases entry.tags@.len() - i,
            {
                if contains_chars(&chars_of(entry.tags[i].as_str()), &needle_chars) {
                    assert(text_contains(entry.tags@[i as int]@, needle@));
                    assert(some_tag_contains(entry.tags@, needle@));
                    return true;
                }
                i = i + 1;
            }
            false
        },
    }
}

/// The picker's category for a family: its catalog category, or sans serif for a family the
/// catalog does not know.
pub open spec fn family_category(family: FontFamilyEntry) -> FontCategory {
    match family.catalog {
        Some(entry) => entry.category,
        None => FontCategory::Sans,
    }
}

/// A category's place in the picker's fixed heading order.
pub open spec fn category_rank(category: FontCategory) -> int {
    match category {
        FontCategory::Sans => 0,
        FontCategory::Display => 1,
        FontCategory::Serif => 2,
        FontCategory::Handwritten => 3,
        FontCategory::Monospace => 4,
        FontCategory::International => 5,
    }
}

/// One heading of the picker and the families listed under it, as indices into the family
/// list.
pub struct FontGroup {
    pub category: FontCategory,
    pub members: Vec<usize>,
}

/// Whether the family at `i` is listed under `category`.
pub open spec fn in_group(
    families: Seq<FontFamilyEntry>,
    needle: Seq<char>,
    category: FontCategory,
    i: int,
) -> bool {
    0 <= i < families.len() && family_category(families[i]) == category && family_matches(
        families[i],
        needle,
    )
}

/// The members of one heading: every listed family of that category, in list order.
pub open spec fn group_members_ok(
    families: Seq<FontFamilyEntry>,
    needle: Seq<char>,
    category: FontCategory,
    members: Seq<usize>,
) -> bool {
    &&& forall|i: int|
        0 <= i < families.len() ==> (members.contains(i as usize) <==> in_group(
            families,
            needle,
            category,
            i,
        ))
    &&& forall|p: int| 0 <= p < members.len() ==> members[p] < families.len()
    &&& forall|p: int, q: int| 0 <= p < q < members.len() ==> members[p] < members[q]
}

/// The families listed under one heading.
fn group_members(families: &Vec<FontFamilyEntry>, needle: &str, category: FontCategory) -> (members:
    Vec<usize>)
    ensures
        group_members_ok(families@, needle@, category, members@),
{
    let mut members: Vec<usize> = Vec::new();
    let mut i: usize = 0;
    while i < families.len()
        invariant
            i <= families@.len(),
            forall|j: int|
                0 <= j < i ==> (members@.contains(j as usize) <==> in_group(
                    families@,
                    needle@,
                    category,
                    j,
                )),
            forall|p: int| 0 <= p < members@.len() ==> members@[p] < i,
            forall|p: int, q: int| 0 <= p < q < members@.len() ==> members@[p] < members@[q],
        decreases families@.len() - i,
    {
        let family = &families[i];
        let family_cat = match &family.catalog {
            Some(entry) => entry.category,
            None => FontCategory::Sans,
        };
        let listed = family_cat == category && family_matches_search(family, needle);
        let ghost old_members = members@;
        if listed {
            members.push(i);
        }
        proof {
            assert forall|j: int|
                0 <= j < i + 1 implies (members@.contains(j as usize) <==> in_group(
                families@,
                needle@,
                category,
                j,
            )) by {
                if j < i {
                    if old_members.contains(j as usize) {
                        let w = choose|w: int|
                            0 <= w < old_members.len() && old_members[w] == j as usize;
                        assert(members@[w] == j as usize);
                    }
                    if members@.contains(j as usize) {
                        let w = choose|w: int| 0 <= w < members@.len() && members@[w] == j as usize;
                        if w < old_members.len() {
                            assert(old_members[w] == j as usize);
                        }
                    }
                } else {
                    if listed {
                        assert(members@[members@.len() - 1] == i);
                    } else if members@.contains(j as usize) {
                        let w = choose|w: int| 0 <= w < members@.len() && members@[w] == j as usize;
                        assert(old_members[w] < i);
                    }
                }
            }
        }
        i = i + 1;
    }
    members
}

/// The font picker's body: for each category heading in the fixed order, the families of
/// that category matching `needle`, in list order; a heading with no match is left out.
pub fn font_picker_groups(families: &Vec<FontFamilyEntry>, needle: &str) -> (groups: Vec<
    FontGroup,
>)
    ensures
        forall|g: int|
            0 <= g < groups@.len() ==> group_members_ok(
                families@,
                needle@,
                #[trigger] groups@[g].category,
                groups@[g].members@,
            ) && groups@[g].members@.len() > 0,
        forall|g: int, h: int|
            0 <= g < h < groups@.len() ==> category_rank(groups@[g].category) < category_rank(
                groups@[h].category,
            ),
        forall|category: FontCategory, i: int|
            #[trigger] in_group(families@, needle@, category, i) ==> exists|g: int|
                0 <= g < groups@.len() && groups@[g].category == category,
{
    let order = [
        FontCategory::Sans,
        FontCategory::Display,
        FontCategory::Serif,
        FontCategory::Handwritten,
        FontCategory::Monospace,
        FontCategory::International,
    ];
    let mut groups: Vec<FontGroup> = Vec::new();
    let mut c: usize = 0;
    while c < 6
        invariant
            c <= 6,
            forall|k: int| 0 <= k < 6 ==> category_rank(#[trigger] order@[k]) == k,
            forall|g: int|
                0 <= g < groups@.len() ==> group_members_ok(
                    families@,
                    needle@,
                    #[trigger] groups@[g].category,
                    groups@[g].members@,
                ) && groups@[g].members@.len() > 0,
            forall|g: int| 0 <= g < groups@.len() ==> category_rank(#[trigger] groups@[g].category) < c,
            forall|g: int, h: int|
                0 <= g < h < groups@.len() ==> category_rank(groups@[g].category) < category_rank(
                    groups@[h].category,
                ),
            forall|category: FontCategory, i: int|
                #[trigger] in_group(families@, needle@, category, i) && category_rank(category) < c
                    ==> exists|g: int| 0 <= g < groups@.len() && groups@[g].category == category,
        decreases 6 - c,
    {
        let category = order[c];
        let members = group_members(families, needle, category);
        let ghost before = groups@;
        if members.len() > 0 {
            groups.push(FontGroup { category, members });
        }
        proof {
            assert forall|cat: FontCategory, i: int|
                #[trigger] in_group(families@, needle@, cat, i) && category_rank(cat) < c + 1
                    implies exists|g: int| 0 <= g < groups@.len() && groups@[g].category == cat by {
                if category_rank(cat) < c {
                    let g = choose|g: int| 0 <= g < before.len() && before[g].category == cat;
                    assert(groups@[g] == before[g]);
                } else {
                    assert(cat == category);
                    assert(members@.contains(i as usize));
                    assert(groups@[groups@.len() - 1].category == cat);
                }
            }
        }
        c = c + 1;
    }
    groups
}

} // verus!

verus! {

/// A text graphic's font family: the six families with their own localized labels, a
/// catalog family named by its catalog id, or a family id this build does not recognize.
pub enum TextFontFamily {
    Lato,
    BebasNeue,
    PlayfairDisplay,
    PatrickHand,
    AnonymousPro,
    ArchivoBlack,
    Catalog(String),
    Unknown(String),
}

/// The localized label of one of the six families with a label of their own.
pub open spec fn builtin_family_text(family: TextFontFamily, locale: Locale) -> Seq<char> {
    match locale {
        Locale::En => match family {
            TextFontFamily::Lato => "Lato · Sans serif"@,
            TextFontFamily::BebasNeue => "Bebas Neue · Display"@,
            TextFontFamily::PlayfairDisplay => "Playfair Display · Serif"@,
            TextFontFamily::PatrickHand => "Patrick Hand · Handwritten"@,
            TextFontFamily::AnonymousPro => "Anonymous Pro · Monospace"@,
            _ => "Archivo Black · Display"@,
        },
        Locale::PtBr => match family {
            TextFontFamily::Lato => "Lato · Sem serifa"@,
            TextFontFamily::BebasNeue => "Bebas Neue · Decorativa"@,
            TextFontFamily::PlayfairDisplay => "Playfair Display · Serifada"@,
            TextFontFamily::PatrickHand => "Patrick Hand · Manuscrita"@,
            TextFontFamily::AnonymousPro => "Anonymous Pro · Monoespaçada"@,
            _ => "Archivo Black · Decorativa"@,
        },
    }
}

/// The localized word for a font this build does not recognize.
pub open spec fn unknown_font_text(locale: Locale) -> Seq<char> {
    match locale {
        Locale::En => "Unknown font"@,
        Locale::PtBr => "Fonte desconhecida"@,
    }
}

/// The label the font picker shows for `family`: a built-in family's own localized label; a
/// catalog family's catalog display name (`Lato` when the catalog has none); and for an
/// unrecognized id, the localized "unknown font" followed by the id in parentheses, so the
/// loss is visible rather than silent.
pub open spec fn family_label_text(
    family: TextFontFamily,
    catalog_display_name: Option<Seq<char>>,
    locale: Locale,
) -> Seq<char> {
    match family {
        TextFontFamily::Catalog(_) => match catalog_display_name {
            Some(name) => name,
            None => "Lato"@,
        },
        TextFontFamily::Unknown(id) => unknown_font_text(locale) + " ("@ + id@ + ")"@,
        _ => builtin_family_text(family, locale),
    }
}

/// The font picker's label for `family`; `catalog_display_name` is the catalog's display name
/// for a catalog family.
pub fn text_font_family_label(
    family: &TextFontFamily,
    catalog_display_name: Option<&str>,
    locale: Locale,
) -> (label: String)
    ensures
        label@ == family_label_text(
            *family,
            match catalog_display_name {
                Some(name) => Some(name@),
                None => None,
            },
            locale,
        ),
{
    match family {
        TextFontFamily::Catalog(_) => match catalog_display_name {
            Some(name) => String::from_str(name),
            None => String::from_str("Lato"),
        },
        TextFontFamily::Unknown(id) => {
            let word: &str = match locale {
                Locale::En => "Unknown font",
                Locale::PtBr => "Fonte desconhecida",
            };
            let mut label = String::from_str(word);
            label.append(" (");
            label.append(id.as_str());
            label.append(")");
            label
        },
        _ => {
            let text: &str = match locale {
                Locale::En => match family {
                    TextFontFamily::Lato => "Lato · Sans serif",
                    TextFontFamily::BebasNeue => "Bebas Neue · Display",
                    TextFontFamily::PlayfairDisplay => "Playfair Display · Serif",
                    TextFontFamily::PatrickHand => "Patrick Hand · Handwritten",
                    TextFontFamily::AnonymousPro => "Anonymous Pro · Monospace",
                    _ => "Archivo Black · Display",
                },
                Locale::PtBr => match family {
                    TextFontFamily::Lato => "Lato · Sem serifa",
                    TextFontFamily::BebasNeue => "Bebas Neue · Decorativa",
                    TextFontFamily::PlayfairDisplay => "Playfair Display · Serifada",
                    TextFontFamily::PatrickHand => "Patrick Hand · Manuscrita",
                    TextFontFamily::AnonymousPro => "Anonymous Pro · Monoespaçada",
                    _ => "Archivo Black · Decorativa",
                },
            };
            String::from_str(text)
        },
    }
}

} // verus!
