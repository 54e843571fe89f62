use vstd::prelude::*;

use crate::text::{chars_of, contains_chars, lowercase, text_contains, to_lowercase};

verus! {

/// The filter chip selected above the media library's asset list.
#[derive(Clone, Copy, Debug, PartialEq, Eq, Structural)]
pub enum MediaLibraryFilter {
    /// Every asset.
    All,
    /// Only assets the user starred.
    Favorites,
    /// Only recently used assets, most recently used first.
    Recent,
    /// Only assets the smart bin with this id matches.
    SmartBin(u64),
}

/// What the media library's list reads of one asset. `in_selected_bin` is the selected smart
/// bin's own rule applied to the asset (meaningful only under a `SmartBin` filter).
pub struct MediaEntry {
    pub id: u64,
    pub file_name: String,
    pub favorited: bool,
    pub in_selected_bin: bool,
}

/// Whether `entry` passes the selected filter chip. A `SmartBin` filter whose bin no longer
/// exists (`bin_found` false) lets everything through.
pub open spec fn passes_filter(
    entry: MediaEntry,
    filter: MediaLibraryFilter,
    bin_found: bool,
    recent: Seq<u64>,
) -> bool {
    match filter {
        MediaLibraryFilter::All => true,
        MediaLibraryFilter::SmartBin(_) => !bin_found || entry.in_selected_bin,
        MediaLibraryFilter::Favorites => entry.favorited,
        MediaLibraryFilter::Recent => recent.contains(entry.id),
    }
}

/// Whether a file name matches the search box: an empty search matches everything, otherwise
/// the lowercased search must occur in the lowercased name.
pub open spec fn matches_search(file_name: Seq<char>, search: Seq<char>) -> bool {
    lowercase(search).len() == 0 || text_contains(lowercase(file_name), lowercase(search))
}

/// Whether the asset at `i` is listed.
pub open spec fn is_listed(
    assets: Seq<MediaEntry>,
    i: int,
    filter: MediaLibraryFilter,
    bin_found: bool,
    recent: Seq<u64>,
    search: Seq<char>,
) -> bool {
    &&& 0 <= i < assets.len()
    &&& passes_filter(assets[i], filter, bin_found, recent)
    &&& matches_search(assets[i].file_name@, search)
}

/// The index of the first occurrence of `id` in `recent`, or `recent.len()` when absent.
pub open spec fn first_position(recent: Seq<u64>, id: u64) -> int
    decreases recent.len(),
{
    if recent.len() == 0 {
        0
    } else if recent[0] == id {
        0
    } else {
        1 + first_position(recent.drop_first(), id)
    }
}

/// The `Recent` filter's sort key: how recently `id` was used (smaller is more recent), or
/// `usize::MAX` for an asset not in the recent list.
pub open spec fn recency_key(recent: Seq<u64>, id: u64) -> int {
    if first_position(recent, id) < recent.len() {
        first_position(recent, id)
    } else {
        usize::MAX as int
    }
}

/// `a` comes strictly before `b` in the listed order: by index, or under `Recent` by recency
/// first and index among equally recent ones (a stable sort of the library order).
pub open spec fn listed_before(
    assets: Seq<MediaEntry>,
    filter: MediaLibraryFilter,
    recent: Seq<u64>,
    a: int,
    b: int,
) -> bool {
    if filter == MediaLibraryFilter::Recent {
        recency_key(recent, assets[a].id) < recency_key(recent, assets[b].id) || (recency_key(
            recent,
            assets[a].id,
        ) == recency_key(recent, assets[b].id) && a < b)
    } else {
        a < b
    }
}

/// The search box applies under every filter chip, Recent included: a listed asset's
/// lowercased name contains the lowercased search whenever that search is not empty, and
/// listing under one chip and passing another chip's test lists the asset under that chip too.
pub proof fn lemma_search_applies_under_every_filter(
    assets: Seq<MediaEntry>,
    i: int,
    filter: MediaLibraryFilter,
    bin_found: bool,
    recent: Seq<u64>,
    search: Seq<char>,
)
    requires
        is_listed(assets, i, filter, bin_found, recent, search),
    ensures
        lowercase(search).len() > 0 ==> text_contains(
            lowercase(assets[i].file_name@),
            lowercase(search),
        ),
        forall|other: MediaLibraryFilter|
            #[trigger] passes_filter(assets[i], other, bin_found, recent) ==> is_listed(
                assets,
                i,
                other,
                bin_found,
                recent,
                search,
            ),
{
}

/// `first_position` finds the first occurrence.
pub proof fn lemma_first_position(recent: Seq<u64>, id: u64)
    ensures
        0 <= first_position(recent, id) <= recent.len(),
        first_position(recent, id) < recent.len() ==> recent[first_position(recent, id)] == id,
        forall|j: int| 0 <= j < first_position(recent, id) ==> recent[j] != id,
        first_position(recent, id) < recent.len() <==> recent.contains(id),
    decreases recent.len(),
{
    if recent.len() > 0 && recent[0] != id {
        lemma_first_position(recent.drop_first(), id);
        let rest = recent.drop_first();
        assert forall|j: int| 0 <= j < first_position(recent, id) implies recent[j] != id by {
            if j > 0 {
                assert(recent[j] == rest[j - 1]);
            }
        }
        if recent.contains(id) {
            let w = choose|w: int| 0 <= w < recent.len() && recent[w] == id;
            assert(rest[w - 1] == id);
        }
        if rest.contains(id) {
            let w = choose|w: int| 0 <= w < rest.len() && rest[w] == id;
            assert(recent[w + 1] == id);
        }
    }
}

/// A position `k` whose entry occurs nowhere earlier is that entry's first position.
proof fn lemma_first_position_at(recent: Seq<u64>, k: int)
    requires
        0 <= k < recent.len(),
        forall|j: int| 0 <= j < k ==> recent[j] != recent[k],
    ensures
        first_position(recent, recent[k]) == k,
{
    lemma_first_position(recent, recent[k]);
    assert(recent.contains(recent[k]));
}

/// The assets the media library lists, as indices into `assets`, in display order: exactly
/// those that pass the filter chip and the search box, in library order, except that under
/// `Recent` they are stably sorted by how recently they were used. An empty search lists every
/// asset the filter chip passes.
pub fn visible_media_assets(
    assets: &Vec<MediaEntry>,
    filter: MediaLibraryFilter,
    bin_found: bool,
    recent: &Vec<u64>,
    search: &str,
) -> (listed: Vec<usize>)
    ensures
        forall|i: int|
            0 <= i < assets@.len() ==> (listed@.contains(i as usize) <==> is_listed(
                assets@,
                i,
                filter,
                bin_found,
                recent@,
                search@,
            )),
        search@.len() > 0 ==> forall|p: int|
            0 <= p < listed@.len() ==> text_contains(
                lowercase(assets@[#[trigger] listed@[p] as int].file_name@),
                lowercase(search@),
            ),
        search@.len() == 0 ==> forall|i: int|
            0 <= i < assets@.len() ==> (listed@.contains(i as usize) <==> passes_filter(
                assets@[i],
                filter,
                bin_found,
                recent@,
            )),
        forall|p: int| 0 <= p < listed@.len() ==> listed@[p] < assets@.len(),
        forall|p: int, q: int|
            0 <= p < q < listed@.len() ==> listed_before(
                assets@,
                filter,
                recent@,
                listed@[p] as int,
                listed@[q] as int,
            ),
{
    let in_order = filtered_in_library_order(assets, filter, bin_found, recent, search);
    let listed = if filter == MediaLibraryFilter::Recent {
        proof {
            assert forall|p: int| 0 <= p < in_order@.len() implies recent@.contains(
                assets@[in_order@[p] as int].id,
            ) by {
                let i = in_order@[p] as int;
                assert(in_order@.contains(i as usize));
                assert(is_listed(assets@, i, filter, bin_found, recent@, search@));
            }
        }
        order_by_recency(assets, &in_order, recent)
    } else {
        in_order
    };
    proof {
        if search@.len() > 0 {
            assert forall|p: int| 0 <= p < listed@.len() implies text_contains(
                lowercase(assets@[#[trigger] listed@[p] as int].file_name@),
                lowercase(search@),
            ) by {
                let i = listed@[p] as int;
                assert(listed@.contains(listed@[p]));
                lemma_search_applies_under_every_filter(
                    assets@,
                    i,
                    filter,
                    bin_found,
                    recent@,
                    search@,
                );
            }
        }
        if search@.len() == 0 {
            assert forall|i: int| 0 <= i < assets@.len() implies (listed@.contains(i as usize)
                <==> passes_filter(assets@[i], filter, bin_found, recent@)) by {
                assert(is_listed(assets@, i, filter, bin_found, recent@, search@) <==> passes_filter(
                    assets@[i],
                    filter,
                    bin_found,
                    recent@,
                ));
            }
        }
    }
    listed
}

/// The listed assets in library order.
fn filtered_in_library_order(
    assets: &Vec<MediaEntry>,
    filter: MediaLibraryFilter,
    bin_found: bool,
    recent: &Vec<u64>,
    search: &str,
) -> (listed: Vec<usize>)
    ensures
        forall|i: int|
            0 <= i < assets@.len() ==> (listed@.contains(i as usize) <==> is_listed(
                assets@,
                i,
                filter,
                bin_found,
                recent@,
                search@,
            )),
        lowercase(search@).len() == 0 <==> search@.len() == 0,
        forall|p: int| 0 <= p < listed@.len() ==> listed@[p] < assets@.len(),
        forall|p: int, q: int| 0 <= p < q < listed@.len() ==> listed@[p] < listed@[q],
{
    let search_lower = to_lowercase(search);
    let needle = chars_of(search_lower.as_str());
    let mut listed: Vec<usize> = Vec::new();
    let mut i: usize = 0;
    while i < assets.len()
        invariant
            needle@ == lowercase(search@),
            i <= assets@.len(),
            forall|j: int|
                0 <= j < i ==> (listed@.contains(j as usize) <==> is_listed(
                    assets@,
                    j,
                    filter,
                    bin_found,
                    recent@,
                    search@,
                )),
            forall|p: int| 0 <= p < listed@.len() ==> listed@[p] < i,
            forall|p: int, q: int| 0 <= p < q < listed@.len() ==> listed@[p] < listed@[q],
        decreases assets@.len() - i,
    {
        let entry = &assets[i];
        let passes = match filter {
            MediaLibraryFilter::All => true,
            MediaLibraryFilter::SmartBin(_) => !bin_found || entry.in_selected_bin,
            MediaLibraryFilter::Favorites => entry.favorited,
            MediaLibraryFilter::Recent => vec_contains_u64(recent, entry.id),
        };
        let matches = passes && (needle.len() == 0 || {
            let name_lower = to_lowercase(entry.file_name.as_str());
            let name_chars = chars_of(name_lower.as_str());
            contains_chars(&name_chars, &needle)
        });
        let ghost old_listed = listed@;
        if matches {
            listed.push(i);
        }
        proof {
            assert forall|j: int|
                0 <= j < i + 1 implies (listed@.contains(j as usize) <==> is_listed(
                assets@,
                j,
                filter,
                bin_found,
                recent@,
                search@,
            )) by {
                if j < i {
                    if old_listed.contains(j as usize) {
                        let w = choose|w: int|
                            0 <= w < old_listed.len() && old_listed[w] == j as usize;
                        assert(listed@[w] == j as usize);
                    }
                    if listed@.contains(j as usize) {
                        let w = choose|w: int| 0 <= w < listed@.len() && listed@[w] == j as usize;
                        if w < old_listed.len() {
                            assert(old_listed[w] == j as usize);
                        }
                    }
                } else {
                    if matches {
                        assert(listed@[listed@.len() - 1] == i);
                    } else if listed@.contains(j as usize) {
                        let w = choose|w: int| 0 <= w < listed@.len() && listed@[w] == j as usize;
                        assert(old_listed[w] < i);
                    }
                }
            }
        }
        i = i + 1;
    }
    listed
}

/// Whether `id` occurs in `ids`.
fn vec_contains_u64(ids: &Vec<u64>, id: u64) -> (found: bool)
    ensures
        found == ids@.contains(id),
{
    let mut k: usize = 0;
    while k < ids.len()
        invariant
            k <= ids@.len(),
            forall|j: int| 0 <= j < k ==> ids@[j] != id,
        decreases ids@.len() - k,
    {
        if ids[k] == id {
            return true;
        }
        k = k + 1;
    }
    false
}

/// Stably sorts `in_order` (library order) by recency: the assets whose id is first used at
/// position 0 of `recent`, then those first used at position 1, and so on.
fn order_by_recency(assets: &Vec<MediaEntry>, in_order: &Vec<usize>, recent: &Vec<u64>) -> (sorted:
    Vec<usize>)
    requires
        forall|p: int| 0 <= p < in_order@.len() ==> in_order@[p] < assets@.len(),
        forall|p: int, q: int| 0 <= p < q < in_order@.len() ==> in_order@[p] < in_order@[q],
        forall|p: int| 0 <= p < in_order@.len() ==> recent@.contains(assets@[in_order@[p] as int].id),
    ensures
        forall|x: usize| sorted@.contains(x) <==> in_order@.contains(x),
        forall|p: int| 0 <= p < sorted@.len() ==> sorted@[p] < assets@.len(),
        forall|p: int, q: int|
            0 <= p < q < sorted@.len() ==> listed_before(
                assets@,
                MediaLibraryFilter::Recent,
                recent@,
                sorted@[p] as int,
                sorted@[q] as int,
            ),
{
    let mut sorted: Vec<usize> = Vec::new();
    let mut k: usize = 0;
    proof {
        assert forall|p: int| 0 <= p < in_order@.len() implies !(first_position(
            recent@,
            assets@[in_order@[p] as int].id,
        ) < 0) by {
            lemma_first_position(recent@, assets@[in_order@[p] as int].id);
        }
    }
    while k < recent.len()
        invariant
            k <= recent@.len(),
            forall|p: int| 0 <= p < in_order@.len() ==> in_order@[p] < assets@.len(),
            forall|p: int, q: int| 0 <= p < q < in_order@.len() ==> in_order@[p] < in_order@[q],
            forall|p: int|
                0 <= p < in_order@.len() ==> recent@.contains(assets@[in_order@[p] as int].id),
            forall|x: usize| sorted@.contains(x) ==> in_order@.contains(x),
            forall|p: int|
                0 <= p < sorted@.len() ==> first_position(recent@, assets@[sorted@[p] as int].id)
                    < k,
            forall|p: int|
                0 <= p < in_order@.len() && first_position(
                    recent@,
                    assets@[in_order@[p] as int].id,
                ) < k ==> sorted@.contains(in_order@[p]),
            forall|p: int| 0 <= p < sorted@.len() ==> sorted@[p] < assets@.len(),
            forall|p: int, q: int|
                0 <= p < q < sorted@.len() ==> listed_before(
                    assets@,
                    MediaLibraryFilter::Recent,
                    recent@,
                    sorted@[p] as int,
                    sorted@[q] as int,
                ),
        decreases recent@.len() - k,
    {
        let id = recent[k];
        let mut first = true;
        let mut j: usize = 0;
        while j < k
            invariant
                j <= k < recent@.len(),
                id == recent@[k as int],
                first == (forall|jj: int| 0 <= jj < j ==> recent@[jj] != id),
            decreases k - j,
        {
            if recent[j] == id {
                first = false;
            }
            j = j + 1;
        }
        if first {
            proof {
                lemma_first_position_at(recent@, k as int);
            }
            let ghost before = sorted@;
            let ghost mut origin: Seq<int> = Seq::empty();
            let mut p: usize = 0;
            while p < in_order.len()
                invariant
                    k < recent@.len(),
                    id == recent@[k as int],
                    first_position(recent@, id) == k,
                    p <= in_order@.len(),
                    forall|q: int| 0 <= q < in_order@.len() ==> in_order@[q] < assets@.len(),
                    forall|a: int, b: int|
                        0 <= a < b < in_order@.len() ==> in_order@[a] < in_order@[b],
                    before.len() <= sorted@.len(),
                    forall|q: int| 0 <= q < before.len() ==> sorted@[q] == before[q],
                    forall|x: usize| before.contains(x) ==> in_order@.contains(x),
                    forall|q: int|
                        0 <= q < before.len() ==> first_position(
                            recent@,
                            assets@[before[q] as int].id,
                        ) < k,
                    origin.len() == sorted@.len() - before.len(),
                    forall|q: int|
                        0 <= q < origin.len() ==> 0 <= #[trigger] origin[q] < p && in_order@[origin[q]]
                            == sorted@[before.len() + q] && assets@[in_order@[origin[q]] as int].id
                            == id,
                    forall|r: int|
                        0 <= r < p && assets@[in_order@[r] as int].id == id ==> sorted@.contains(
                            #[trigger] in_order@[r],
                        ),
                    forall|q: int| 0 <= q < sorted@.len() ==> sorted@[q] < assets@.len(),
                    forall|a: int, b: int|
                        0 <= a < b < sorted@.len() ==> listed_before(
                            assets@,
                            MediaLibraryFilter::Recent,
                            recent@,
                            sorted@[a] as int,
                            sorted@[b] as int,
                        ),
                decreases in_order@.len() - p,
            {
                let x = in_order[p];
                if assets[x].id == id {
                    let ghost prev = sorted@;
                    proof {
                        lemma_first_position(recent@, id);
                        assert forall|a: int| 0 <= a < prev.len() implies listed_before(
                            assets@,
                            MediaLibraryFilter::Recent,
                            recent@,
                            prev[a] as int,
                            x as int,
                        ) by {
                            lemma_first_position(recent@, assets@[prev[a] as int].id);
                            if a < before.len() {
                                assert(prev[a] == before[a]);
                            } else {
                                let r = origin[a - before.len()];
                                assert(in_order@[r] < in_order@[p as int]);
                            }
                        }
                    }
                    sorted.push(x);
                    proof {
                        origin = origin.push(p as int);
                        assert forall|r: int|
                            0 <= r < p + 1 && assets@[in_order@[r] as int].id == id implies sorted@.contains(
                            #[trigger] in_order@[r],
                        ) by {
                            if r < p {
                                let w = choose|w: int| 0 <= w < prev.len() && prev[w] == in_order@[r];
                                assert(sorted@[w] == in_order@[r]);
                            } else {
                                assert(sorted@[sorted@.len() - 1] == in_order@[r]);
                            }
                        }
                    }
                }
                p = p + 1;
            }
            proof {
                assert forall|x: usize| sorted@.contains(x) implies in_order@.contains(x) by {
                    let w = choose|w: int| 0 <= w < sorted@.len() && sorted@[w] == x;
                    if w < before.len() {
                        assert(before[w] == x);
                        assert(before.contains(x));
                    } else {
                        let r = origin[w - before.len()];
                        assert(in_order@[r] == x);
                        assert(in_order@.contains(x));
                    }
                }
                assert forall|q: int| 0 <= q < sorted@.len() implies first_position(
                    recent@,
                    assets@[sorted@[q] as int].id,
                ) < k + 1 by {
                    if q < before.len() {
                        assert(sorted@[q] == before[q]);
                    } else {
                        let r = origin[q - before.len()];
                        assert(in_order@[r] == sorted@[q]);
                    }
                }
                assert forall|r: int|
                    0 <= r < in_order@.len() && first_position(
                        recent@,
                        assets@[in_order@[r] as int].id,
                    ) < k + 1 implies sorted@.contains(in_order@[r]) by {
                    let rid = assets@[in_order@[r] as int].id;
                    if first_position(recent@, rid) < k {
                        let w = choose|w: int| 0 <= w < before.len() && before[w] == in_order@[r];
                        assert(sorted@[w] == in_order@[r]);
                    } else {
                        lemma_first_position(recent@, rid);
                    }
                }
            }
        } else {
            proof {
                assert forall|r: int|
                    0 <= r < in_order@.len() && first_position(
                        recent@,
                        assets@[in_order@[r] as int].id,
                    ) < k + 1 implies sorted@.contains(in_order@[r]) by {
                    let rid = assets@[in_order@[r] as int].id;
                    lemma_first_position(recent@, rid);
                    if first_position(recent@, rid) == k {
                        let jj = choose|jj: int| 0 <= jj < k && recent@[jj] == id;
                        assert(recent@[jj] == rid);
                    }
                }
            }
        }
        k = k + 1;
    }
    proof {
        assert forall|x: usize| in_order@.contains(x) implies sorted@.contains(x) by {
            let w = choose|w: int| 0 <= w < in_order@.len() && in_order@[w] == x;
            lemma_first_position(recent@, assets@[x as int].id);
        }
    }
    sorted
}

} // verus!
