//! Addressing a page: by its numeric id or by its title. The two differ in
//! the name of the query parameter that carries them and in how the page is
//! found in an answer.
//!
//! An answer keys its pages by resolved page id, not by the title that was
//! asked for. Addressing by title therefore takes the first page that the
//! answer holds under a key other than the "no such page" key; where redirects
//! or several pages are involved, that page need not be the one that was meant.

use vstd::prelude::*;
use crate::ordered_map::OrderedMap;
use crate::response::{Page, PageView, QueryResponse};
use crate::text::{decimal, str_eq, u64_to_decimal};

verus! {

/// The key under which the wiki reports that it found no page.
pub const NOT_FOUND_KEY: &'static str = "-1";

/// A page identifier, as a mathematical value.
pub enum PageIdentifierView {
    NumericId(u64),
    Title(Seq<char>),
}

/// The name of the parameter that addresses a single page.
pub open spec fn param_name(id: PageIdentifierView) -> Seq<char> {
    match id {
        PageIdentifierView::NumericId(_) => "pageids"@,
        PageIdentifierView::Title(_) => "titles"@,
    }
}

/// The name of the parameter that names the category whose members are asked for.
pub open spec fn cat_param_name(id: PageIdentifierView) -> Seq<char> {
    match id {
        PageIdentifierView::NumericId(_) => "gcmpageid"@,
        PageIdentifierView::Title(_) => "gcmtitle"@,
    }
}

/// The value of the addressing parameter: the decimal numeral of a numeric
/// id, or the title as it is.
pub open spec fn query_value(id: PageIdentifierView) -> Seq<char> {
    match id {
        PageIdentifierView::NumericId(n) => decimal(n as nat),
        PageIdentifierView::Title(title) => title,
    }
}

/// Position `i` holds the first key that is not the "no such page" key.
pub open spec fn is_first_found(keys: Seq<Seq<char>>, i: int) -> bool {
    &&& 0 <= i < keys.len()
    &&& keys[i] != NOT_FOUND_KEY@
    &&& forall|j: int| 0 <= j < i ==> keys[j] == NOT_FOUND_KEY@
}

/// The first page whose key is not the "no such page" key; none where the
/// map is empty or holds that key only.
pub open spec fn first_found(pages: OrderedMap<Page>) -> Option<PageView> {
    if exists|i: int| is_first_found(pages.keys(), i) {
        Some(pages.values()[choose|i: int| is_first_found(pages.keys(), i)]@)
    } else {
        None
    }
}

/// The page that an identifier selects among the pages of an answer: for a
/// numeric id the page keyed by its decimal numeral, for a title the first
/// page whose key is not the "no such page" key.
pub open spec fn extract(id: PageIdentifierView, pages: OrderedMap<Page>) -> Option<PageView> {
    match id {
        PageIdentifierView::NumericId(n) => pages.lookup(decimal(n as nat)).deep_view(),
        PageIdentifierView::Title(_) => first_found(pages),
    }
}

/// A numeric id is sent under `pageids` as its decimal numeral, and in an
/// answer it selects the page that is keyed by that numeral: where position
/// `i` holds the key, the page at `i`; where no position holds it, none.
pub proof fn lemma_numeric_id_selects_by_key(n: u64, pages: OrderedMap<Page>, i: int)
    requires
        pages.wf(),
    ensures
        param_name(PageIdentifierView::NumericId(n)) == "pageids"@,
        query_value(PageIdentifierView::NumericId(n)) == decimal(n as nat),
        0 <= i < pages.keys().len() && pages.keys()[i] == decimal(n as nat) ==> extract(
            PageIdentifierView::NumericId(n),
            pages,
        ) == Some(pages.values()[i]@),
        !pages.keys().contains(decimal(n as nat)) ==> extract(
            PageIdentifierView::NumericId(n),
            pages,
        ) is None,
{
    pages.lemma_shape();
}

/// A title is sent under `titles` as it is, and in an answer it selects the
/// first page whose key is not the "no such page" key: where that key first
/// fails to stand at position `i`, the page at `i`; where the map is empty or
/// every key is that key, none.
pub proof fn lemma_title_selects_first_found(title: Seq<char>, pages: OrderedMap<Page>, i: int)
    ensures
        param_name(PageIdentifierView::Title(title)) == "titles"@,
        query_value(PageIdentifierView::Title(title)) == title,
        is_first_found(pages.keys(), i) ==> extract(PageIdentifierView::Title(title), pages)
            == Some(pages.values()[i]@),
        (forall|j: int| 0 <= j < pages.keys().len() ==> pages.keys()[j] == NOT_FOUND_KEY@)
            ==> extract(PageIdentifierView::Title(title), pages) is None,
{
    if is_first_found(pages.keys(), i) {
        let c = choose|c: int| is_first_found(pages.keys(), c);
        assert(c == i);
    }
}

/// A copy of the page keyed by `key`, where the map holds that key.
pub fn page_by_key(pages: &OrderedMap<Page>, key: &str) -> (res: Option<Page>)
    ensures
        res.deep_view() == pages.lookup(key@).deep_view(),
{
    match pages.get(key) {
        Some(page) => Some(page.clone()),
        None => None,
    }
}

/// A copy of the first page whose key is not the "no such page" key.
pub fn first_found_page(pages: &OrderedMap<Page>) -> (res: Option<Page>)
    ensures
        res.deep_view() == first_found(*pages),
{
    let n = pages.len();
    let mut i: usize = 0;
    while i < n
        invariant
            i <= n,
            n == pages.keys().len(),
            n == pages.values().len(),
            forall|j: int| 0 <= j < i ==> pages.keys()[j] == NOT_FOUND_KEY@,
        decreases n - i,
    {
        if !str_eq(pages.key_at(i), NOT_FOUND_KEY) {
            proof {
                assert(is_first_found(pages.keys(), i as int));
                let c = choose|c: int| is_first_found(pages.keys(), c);
                assert(c == i);
            }
            return Some(pages.value_at(i).clone());
        }
        i = i + 1;
    }
    None
}

/// The capability of addressing a page.
pub trait PageId {
    /// The identifier that the value stands for.
    spec fn identifier(&self) -> PageIdentifierView;

    /// The name of the parameter that addresses a single page.
    fn get_param_name(&self) -> (res: &'static str)
        ensures
            res@ == param_name(self.identifier()),
    ;

    /// The name of the parameter that names a category.
    fn get_cat_param_name(&self) -> (res: &'static str)
        ensures
            res@ == cat_param_name(self.identifier()),
    ;

    /// The value to send for the identifier.
    fn query_value(&self) -> (res: String)
        ensures
            res@ == query_value(self.identifier()),
    ;

    /// The page that the identifier selects in `resp`, or `None` where it
    /// selects none.
    fn get_page_from_response(&self, resp: &QueryResponse) -> (res: Option<Page>)
        ensures
            res.deep_view() == extract(self.identifier(), resp.query.pages),
    ;
}

impl PageId for u64 {
    open spec fn identifier(&self) -> PageIdentifierView {
        PageIdentifierView::NumericId(*self)
    }

    fn get_param_name(&self) -> (res: &'static str) {
        "pageids"
    }

    fn get_cat_param_name(&self) -> (res: &'static str) {
        "gcmpageid"
    }

    fn query_value(&self) -> (res: String) {
        u64_to_decimal(*self)
    }

    fn get_page_from_response(&self, resp: &QueryResponse) -> (res: Option<Page>) {
        let key = u64_to_decimal(*self);
        page_by_key(&resp.query.pages, key.as_str())
    }
}

impl PageId for &str {
    open spec fn identifier(&self) -> PageIdentifierView {
        PageIdentifierView::Title(self@)
    }

    fn get_param_name(&self) -> (res: &'static str) {
        "titles"
    }

    fn get_cat_param_name(&self) -> (res: &'static str) {
        "gcmtitle"
    }

    fn query_value(&self) -> (res: String) {
        (*self).to_owned()
    }

    fn get_page_from_response(&self, resp: &QueryResponse) -> (res: Option<Page>) {
        first_found_page(&resp.query.pages)
    }
}

impl PageId for String {
    open spec fn identifier(&self) -> PageIdentifierView {
        PageIdentifierView::Title(self@)
    }

    fn get_param_name(&self) -> (res: &'static str) {
        "titles"
    }

    fn get_cat_param_name(&self) -> (res: &'static str) {
        "gcmtitle"
    }

    fn query_value(&self) -> (res: String) {
        self.clone()
    }

    fn get_page_from_response(&self, resp: &QueryResponse) -> (res: Option<Page>) {
        first_found_page(&resp.query.pages)
    }
}

/// A page identifier: exactly one of a numeric id and a title.
#[derive(Debug, PartialEq, Eq)]
pub enum PageIdentifier {
    NumericId(u64),
    Title(String),
}

impl Clone for PageIdentifier {
    fn clone(&self) -> (res: Self)
        ensures
            res@ == self@,
    {
        match self {
            PageIdentifier::NumericId(n) => PageIdentifier::NumericId(*n),
            PageIdentifier::Title(title) => PageIdentifier::Title(title.clone()),
        }
    }
}

impl View for PageIdentifier {
    type V = PageIdentifierView;

    open spec fn view(&self) -> PageIdentifierView {
        match self {
            PageIdentifier::NumericId(n) => PageIdentifierView::NumericId(*n),
            PageIdentifier::Title(title) => PageIdentifierView::Title(title@),
        }
    }
}

impl PageId for PageIdentifier {
    open spec fn identifier(&self) -> PageIdentifierView {
        self@
    }

    fn get_param_name(&self) -> (res: &'static str) {
        match self {
            PageIdentifier::NumericId(n) => n.get_param_name(),
            PageIdentifier::Title(title) => title.get_param_name(),
        }
    }

    fn get_cat_param_name(&self) -> (res: &'static str) {
        match self {
            PageIdentifier::NumericId(n) => n.get_cat_param_name(),
            PageIdentifier::Title(title) => title.get_cat_param_name(),
        }
    }

    fn query_value(&self) -> (res: String) {
        match self {
            PageIdentifier::NumericId(n) => n.query_value(),
            PageIdentifier::Title(title) => title.query_value(),
        }
    }

    fn get_page_from_response(&self, resp: &QueryResponse) -> (res: Option<Page>) {
        match self {
            PageIdentifier::NumericId(n) => n.get_page_from_response(resp),
            PageIdentifier::Title(title) => title.get_page_from_response(resp),
        }
    }
}

} // verus!
