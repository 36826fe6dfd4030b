//! The list of sound files, cut into pages for display.
use vstd::prelude::*;
use std::collections::HashMap;
use crate::utils::text::views;

verus! {

/// How many names a page holds at most.
pub const PAGE_SIZE: usize = 25;

/// The page `page_index` of `names`: the names from `25 * page_index` on, 25
/// of them or as many as are left.
pub open spec fn page_of(names: Seq<Seq<char>>, page_index: usize) -> Seq<Seq<char>> {
    names.subrange(
        page_index * 25,
        if page_index * 25 + 25 <= names.len() {
            page_index * 25 + 25
        } else {
            names.len() as int
        },
    )
}

/// The pages of `names`: each but the last holds 25 names, the last holds
/// the rest, and no page is empty.
pub open spec fn paged(names: Seq<Seq<char>>) -> Map<usize, Seq<Seq<char>>> {
    Map::new(|k: usize| k * 25 < names.len(), |k: usize| page_of(names, k))
}

/// The names of the sound files, by page.
pub struct SoundsPages {
    _pages: HashMap<usize, Vec<String>>,
}

impl View for SoundsPages {
    type V = Map<usize, Seq<Seq<char>>>;

    /// The names on each page.
    closed spec fn view(&self) -> Map<usize, Seq<Seq<char>>> {
        self._pages@.map_values(|page: Vec<String>| views(page@))
    }
}

impl SoundsPages {
    /// The page `page_index`, counted from 0, if there is such a page.
    pub fn get_page(&self, page_index: usize) -> (page: Option<&Vec<String>>)
        ensures
            page is Some <==> self@.contains_key(page_index),
            page matches Some(names) ==> views(names@) == self@[page_index],
    {
        self._pages.get(&page_index)
    }

    /// The number of pages.
    pub fn page_count(&self) -> (n: usize)
        ensures
            n == self@.dom().len(),
    {
        assert(self@.dom() =~= self._pages@.dom());
        self._pages.len()
    }
}

/// What the bot keeps in memory.
pub struct AppCache {
    pub sounds_pages: SoundsPages,
}

/// The name under which the cache is filed in the bot's shared data.
pub struct AppCacheKey {}

/// The cache for the sound directory's listing `listing`, or for its
/// absence (`None`) where the directory could not be read.
pub fn create_app_cache(listing: Option<Vec<String>>) -> (cache: AppCache)
    ensures
        match listing {
            Some(names) => cache.sounds_pages@ == paged(views(names@)),
            None => cache.sounds_pages@ == Map::<usize, Seq<Seq<char>>>::empty(),
        },
{
    AppCache { sounds_pages: create_sounds_pages_cache(listing) }
}

/// The names `names[from..to]`, copied.
fn copy_range(names: &Vec<String>, from: usize, to: usize) -> (page: Vec<String>)
    requires
        from <= to <= names@.len(),
    ensures
        views(page@) == views(names@).subrange(from as int, to as int),
{
    let mut page: Vec<String> = Vec::new();
    let mut i: usize = from;
    while i < to
        invariant
            from <= i <= to <= names@.len(),
            page@.len() == i - from,
            forall|j: int| 0 <= j < page@.len() ==> (#[trigger] page@[j])@ == names@[from + j]@,
        decreases to - i,
    {
        page.push(names[i].clone());
        i = i + 1;
    }
    assert(views(page@) =~= views(names@).subrange(from as int, to as int));
    page
}

/// The pages for the sound directory's listing `listing`; no pages where
/// the directory could not be read.
pub fn create_sounds_pages_cache(listing: Option<Vec<String>>) -> (pages: SoundsPages)
    ensures
        match listing {
            Some(names) => pages@ == paged(views(names@)),
            None => pages@ == Map::<usize, Seq<Seq<char>>>::empty(),
        },
{
    let mut table: HashMap<usize, Vec<String>> = HashMap::new();
    let names = match listing {
        Some(names) => names,
        None => {
            let pages = SoundsPages { _pages: table };
            assert(pages@ =~= Map::<usize, Seq<Seq<char>>>::empty());
            return pages;
        },
    };
    let total = names.len();
    let ghost all = views(names@);
    let mut k: usize = 0;
    let mut start: usize = 0;
    while start < total
        invariant
            total == names@.len(),
            all == views(names@),
            start <= total,
            start == (if k * 25 <= total {
                k * 25
            } else {
                total as int
            }),
            k > 0 ==> (k - 1) * 25 < total,
            forall|j: usize| table@.contains_key(j) <==> j < k,
            forall|j: usize| j < k ==> views((#[trigger] table@[j])@) == page_of(all, j),
        decreases total - start,
    {
        let end = if total - start >= 25 {
            start + 25
        } else {
            total
        };
        let page = copy_range(&names, start, end);
        table.insert(k, page);
        assert(views(page@) == page_of(all, k));
        k = k + 1;
        start = end;
    }
    let pages = SoundsPages { _pages: table };
    proof {
        assert forall|j: usize| pages@.contains_key(j) <==> paged(all).contains_key(j) by {
            assert(pages@.contains_key(j) <==> table@.contains_key(j));
        }
        assert forall|j: usize| pages@.contains_key(j) implies pages@[j] == paged(all)[j] by {
            assert(table@.contains_key(j));
        }
        assert(pages@ =~= paged(all));
    }
    pages
}

} // verus!
