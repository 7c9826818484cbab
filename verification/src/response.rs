//! The response model: what the wiki, the analytics service and the
//! linked-data store answer, once decoded.

use vstd::prelude::*;
use crate::ordered_map::OrderedMap;
use crate::text::{clone_opt_string, contains_str};

verus! {

/// The kind of a wiki page, decoded from the numeric namespace code.
#[derive(Debug, Clone, Copy, PartialEq, Eq, Structural)]
pub enum Namespace {
    Page,
    Category,
    NotImplemented,
}

impl Namespace {
    /// Code 0 is an ordinary page, code 14 a category; no other code is
    /// told apart.
    pub open spec fn decode(code: u64) -> Namespace {
        if code == 0 {
            Namespace::Page
        } else if code == 14 {
            Namespace::Category
        } else {
            Namespace::NotImplemented
        }
    }

    /// Decodes a namespace code. Every code decodes: an unfamiliar one never
    /// fails the record that holds it.
    pub fn from_code(code: u64) -> (res: Namespace)
        ensures
            res == Namespace::decode(code),
    {
        match code {
            0 => Namespace::Page,
            14 => Namespace::Category,
            _ => Namespace::NotImplemented,
        }
    }
}

/// A category that a page belongs to.
#[derive(Debug, PartialEq, Eq)]
pub struct Category {
    pub title: String,
}

impl View for Category {
    type V = Seq<char>;

    open spec fn view(&self) -> Seq<char> {
        self.title@
    }
}

impl DeepView for Category {
    type V = Seq<char>;

    open spec fn deep_view(&self) -> Seq<char> {
        self@
    }
}

impl Clone for Category {
    fn clone(&self) -> (res: Self)
        ensures
            res@ == self@,
    {
        Category { title: self.title.clone() }
    }
}

/// The page properties that the client asks for: the linked-data item id.
#[derive(Debug, PartialEq, Eq)]
pub struct PageProps {
    pub wikibase_item: Option<String>,
}

impl View for PageProps {
    type V = Option<Seq<char>>;

    open spec fn view(&self) -> Option<Seq<char>> {
        self.wikibase_item.deep_view()
    }
}

impl DeepView for PageProps {
    type V = Option<Seq<char>>;

    open spec fn deep_view(&self) -> Option<Seq<char>> {
        self@
    }
}

impl Clone for PageProps {
    fn clone(&self) -> (res: Self)
        ensures
            res@ == self@,
    {
        PageProps { wikibase_item: clone_opt_string(&self.wikibase_item) }
    }
}

/// A page of the wiki with its metadata.
#[derive(Debug, PartialEq, Eq)]
pub struct Page {
    pub pageid: u64,
    pub title: String,
    pub canonicalurl: String,
    pub ns: Namespace,
    pub desc: Option<String>,
    pub categories: Option<Vec<Category>>,
    pub pageprops: Option<PageProps>,
}

/// What a `Page` holds, as mathematical values.
pub struct PageView {
    pub pageid: u64,
    pub title: Seq<char>,
    pub canonicalurl: Seq<char>,
    pub ns: Namespace,
    pub desc: Option<Seq<char>>,
    pub categories: Option<Seq<Seq<char>>>,
    pub pageprops: Option<Option<Seq<char>>>,
}

impl View for Page {
    type V = PageView;

    open spec fn view(&self) -> PageView {
        PageView {
            pageid: self.pageid,
            title: self.title@,
            canonicalurl: self.canonicalurl@,
            ns: self.ns,
            desc: self.desc.deep_view(),
            categories: self.categories.deep_view(),
            pageprops: self.pageprops.deep_view(),
        }
    }
}

impl DeepView for Page {
    type V = PageView;

    open spec fn deep_view(&self) -> PageView {
        self@
    }
}

impl Clone for Page {
    fn clone(&self) -> (res: Self)
        ensures
            res@ == self@,
    {
        let categories = match &self.categories {
            Some(list) => {
                let mut copy: Vec<Category> = Vec::new();
                let mut i: usize = 0;
                while i < list.len()
                    invariant
                        i <= list.len(),
                        copy@.len() == i,
                        forall|j: int| 0 <= j < i ==> (#[trigger] copy@[j])@ == list@[j]@,
                    decreases list.len() - i,
                {
                    copy.push(list[i].clone());
                    i = i + 1;
                }
                assert(copy.deep_view() =~= list.deep_view());
                Some(copy)
            },
            None => None,
        };
        let pageprops = match &self.pageprops {
            Some(props) => Some(props.clone()),
            None => None,
        };
        Page {
            pageid: self.pageid,
            title: self.title.clone(),
            canonicalurl: self.canonicalurl.clone(),
            ns: self.ns,
            desc: clone_opt_string(&self.desc),
            categories,
            pageprops,
        }
    }
}

/// The continuation marker of a paged answer.
#[derive(Debug, PartialEq, Eq)]
pub struct Cont {
    pub gcmcontinue: Option<String>,
}

/// The pages of an answer, keyed as the wiki keyed them.
#[derive(Debug, PartialEq, Eq)]
pub struct Query {
    pub pages: OrderedMap<Page>,
}

/// The answer to a page query or a category-membership query.
#[derive(Debug, PartialEq, Eq)]
pub struct QueryResponse {
    pub batchcomplete: Option<String>,
    pub query: Query,
    pub cont: Option<Cont>,
}

impl QueryResponse {
    /// The token under which the next part of a paged answer is fetched:
    /// present only where the answer carries a continuation whose token is
    /// set and not empty.
    pub open spec fn next_token(self) -> Option<Seq<char>> {
        match self.cont {
            Some(cont) => match cont.gcmcontinue {
                Some(token) => if token@.len() > 0 {
                    Some(token@)
                } else {
                    None
                },
                None => None,
            },
            None => None,
        }
    }
}

/// One month of a pageview series.
#[derive(Debug, Clone, Copy, PartialEq, Eq, Structural)]
pub struct PageViewItem {
    pub views: u64,
}

/// A pageview series: the monthly counts in the order of the answer.
#[derive(Debug, PartialEq, Eq)]
pub struct PageViewResponse {
    pub items: Vec<PageViewItem>,
}

/// The sum of the view counts of a series.
pub open spec fn sum_views(items: Seq<PageViewItem>) -> nat
    decreases items.len(),
{
    if items.len() == 0 {
        0
    } else {
        sum_views(items.drop_last()) + items.last().views as nat
    }
}

/// The sum of a series is at least the sum of each of its prefixes.
pub proof fn lemma_sum_views_monotonic(items: Seq<PageViewItem>, n: int)
    requires
        0 <= n <= items.len(),
    ensures
        sum_views(items.subrange(0, n)) <= sum_views(items),
    decreases items.len() - n,
{
    if n == items.len() {
        assert(items.subrange(0, n) =~= items);
    } else {
        lemma_sum_views_monotonic(items, n + 1);
        assert(items.subrange(0, n + 1).drop_last() =~= items.subrange(0, n));
    }
}

impl PageViewResponse {
    /// The aggregate of the series: the sum of its monthly counts, or `None`
    /// where that sum does not fit in 64 bits.
    pub fn total_views(&self) -> (res: Option<u64>)
        ensures
            res == (if sum_views(self.items@) <= u64::MAX {
                Some(sum_views(self.items@) as u64)
            } else {
                None
            }),
    {
        let mut total: u64 = 0;
        let mut i: usize = 0;
        while i < self.items.len()
            invariant
                i <= self.items.len(),
                total == sum_views(self.items@.subrange(0, i as int)),
            decreases self.items.len() - i,
        {
            proof {
                assert(self.items@.subrange(0, i + 1).drop_last() =~= self.items@.subrange(
                    0,
                    i as int,
                ));
            }
            match total.checked_add(self.items[i].views) {
                Some(next) => {
                    total = next;
                },
                None => {
                    proof {
                        lemma_sum_views_monotonic(self.items@, i + 1);
                    }
                    return None;
                },
            }
            i = i + 1;
        }
        assert(self.items@.subrange(0, i as int) =~= self.items@);
        Some(total)
    }
}

/// One alias of a linked-data entity.
#[derive(Debug, PartialEq, Eq)]
pub struct LangData {
    pub value: String,
}

/// The title of a linked-data entity on one site.
#[derive(Debug, PartialEq, Eq)]
pub struct SiteLinkData {
    pub title: String,
}

/// A linked-data entity: its aliases by language code, and its title on each
/// site by site identifier.
#[derive(Debug, PartialEq, Eq)]
pub struct WikiData {
    pub aliases: OrderedMap<Vec<LangData>>,
    pub sitelinks: OrderedMap<SiteLinkData>,
}

/// The answer of the linked-data store: entities by item id.
#[derive(Debug, PartialEq, Eq)]
pub struct WikiDataResponse {
    pub entities: OrderedMap<WikiData>,
}

/// The site identifier of the wiki edition whose titles count as native.
pub const NATIVE_SITE: &'static str = "idwiki";

impl WikiData {
    /// The aliases of the entity under every language, language attribution
    /// dropped: a string belongs to the set exactly if some language lists it.
    pub open spec fn alias_set(self) -> Set<Seq<char>> {
        Set::new(
            |a: Seq<char>|
                exists|i: int, j: int|
                    0 <= i < self.aliases.values().len() && 0 <= j
                        < self.aliases.values()[i]@.len()
                        && (#[trigger] self.aliases.values()[i]@[j]).value@ == a,
        )
    }

    /// The aliases that the first `i` languages list, and the first `j`
    /// aliases of the language after them.
    spec fn alias_set_upto(self, i: int, j: int) -> Set<Seq<char>> {
        Set::new(
            |a: Seq<char>|
                exists|p: int, q: int|
                    0 <= p < self.aliases.values().len() && 0 <= q
                        < self.aliases.values()[p]@.len() && (p < i || (p == i && q < j))
                        && (#[trigger] self.aliases.values()[p]@[q]).value@ == a,
        )
    }

    /// The title of the entity on the site `site`, where it has one.
    pub open spec fn title_on(self, site: Seq<char>) -> Option<Seq<char>> {
        match self.sitelinks.lookup(site) {
            Some(link) => Some(link.title@),
            None => None,
        }
    }

    /// The aliases of the entity, each once, whatever the language.
    pub fn get_unique_alias(&self) -> (res: Vec<&str>)
        ensures
            res.deep_view().no_duplicates(),
            res.deep_view().to_set() == self.alias_set(),
    {
        let mut out: Vec<&str> = Vec::new();
        let n = self.aliases.len();
        let mut i: usize = 0;
        assert(out.deep_view().to_set() =~= self.alias_set_upto(0, 0));
        while i < n
            invariant
                i <= n,
                n == self.aliases.values().len(),
                out.deep_view().no_duplicates(),
                out.deep_view().to_set() == self.alias_set_upto(i as int, 0),
            decreases n - i,
        {
            let list = self.aliases.value_at(i);
            let mut j: usize = 0;
            while j < list.len()
                invariant
                    i < n,
                    n == self.aliases.values().len(),
                    *list == self.aliases.values()[i as int],
                    j <= list.len(),
                    out.deep_view().no_duplicates(),
                    out.deep_view().to_set() == self.alias_set_upto(i as int, j as int),
                decreases list.len() - j,
            {
                let alias = list[j].value.as_str();
                let ghost before = out.deep_view();
                if !contains_str(&out, alias) {
                    out.push(alias);
                    assert(out.deep_view() =~= before.push(alias@));
                }
                proof {
                    let after = out.deep_view();
                    assert(self.aliases.values()[i as int]@[j as int].value@ == alias@);
                    assert forall|a: Seq<char>| after.to_set().contains(a) == self.alias_set_upto(
                        i as int,
                        j + 1,
                    ).contains(a) by {
                        if before.to_set().contains(a) {
                            let k = choose|k: int| 0 <= k < before.len() && before[k] == a;
                            assert(after[k] == a);
                        }
                        if after.to_set().contains(a) && !before.to_set().contains(a) {
                            let k = choose|k: int| 0 <= k < after.len() && after[k] == a;
                            assert(k == before.len());
                        }
                        if a == alias@ {
                            if !before.contains(a) {
                                assert(after[before.len() as int] == a);
                            }
                        }
                    }
                    assert(after.to_set() =~= self.alias_set_upto(i as int, j + 1));
                }
                j = j + 1;
            }
            assert(self.alias_set_upto(i as int, j as int) =~= self.alias_set_upto(i + 1, 0));
            i = i + 1;
        }
        assert(self.alias_set_upto(n as int, 0) =~= self.alias_set());
        out
    }

    /// The title of the entity on the site named `sitelink_name`, such as
    /// `enwiki` for the English edition.
    pub fn get_title(&self, sitelink_name: &str) -> (res: Option<&str>)
        ensures
            res.deep_view() == self.title_on(sitelink_name@),
    {
        match self.sitelinks.get(sitelink_name) {
            Some(link) => Some(link.title.as_str()),
            None => None,
        }
    }

    /// The title of the entity on the native site.
    pub fn get_native_title(&self) -> (res: Option<&str>)
        ensures
            res.deep_view() == self.title_on(NATIVE_SITE@),
    {
        self.get_title(NATIVE_SITE)
    }
}

impl WikiDataResponse {
    /// The aliases of the entity `wikidata_id`, each once; `None` exactly
    /// where the answer holds no such entity.
    pub fn get_unique_alias(&self, wikidata_id: &str) -> (res: Option<Vec<&str>>)
        ensures
            match self.entities.lookup(wikidata_id@) {
                Some(entity) => res matches Some(list) && list.deep_view().no_duplicates()
                    && list.deep_view().to_set() == entity.alias_set(),
                None => res is None,
            },
    {
        match self.entities.get(wikidata_id) {
            Some(entity) => Some(entity.get_unique_alias()),
            None => None,
        }
    }

    /// The native title of the entity `wikidata_id`; `None` where the answer
    /// holds no such entity or the entity has no native title.
    pub fn get_native_title(&self, wikidata_id: &str) -> (res: Option<&str>)
        ensures
            res.deep_view() == (match self.entities.lookup(wikidata_id@) {
                Some(entity) => entity.title_on(NATIVE_SITE@),
                None => None,
            }),
    {
        match self.entities.get(wikidata_id) {
            Some(entity) => entity.get_native_title(),
            None => None,
        }
    }
}

} // verus!
