//! What the client decides once an answer has arrived: whether a status is
//! acceptable, which page an answer holds, what a pageview series adds up to,
//! which aliases an entity has, and how the members of a category are
//! gathered part by part.
//!
//! Nothing here sends or receives. The caller sends each request that it is
//! handed and hands back what came of it.

use vstd::prelude::*;
use crate::async_request::{describes, AsyncCaller, Intent, Request};
use crate::errors::FetchError;
use crate::request::{extract, PageId};
use crate::response::{Page, PageView, PageViewResponse, QueryResponse, WikiDataResponse, sum_views};

verus! {

/// The failure of a pageview series whose sum does not fit in 64 bits.
pub const VIEWS_OVERFLOW: &'static str = "the pageview counts add up to more than 64 bits hold";

/// The queries that the client makes, by what they ask for.
#[derive(Debug, Clone, Copy, PartialEq, Eq, Structural)]
pub enum QueryKind {
    Page,
    CategoryMembers,
    PageViews,
    LinkedData,
}

/// Whether an answer with status `status` to a query of kind `kind` fails
/// the call. A page query goes on whatever the status, at most with a
/// warning; every other query needs status 200.
pub open spec fn status_fails(kind: QueryKind, status: u16) -> bool {
    status != 200 && kind != QueryKind::Page
}

/// Accepts or rejects the status of an answer.
pub fn check_status(kind: QueryKind, status: u16) -> (res: Result<(), FetchError>)
    ensures
        status_fails(kind, status) ==> res matches Err(FetchError::Non200StatusCode),
        !status_fails(kind, status) ==> res is Ok,
{
    if status == 200 {
        Ok(())
    } else {
        match kind {
            QueryKind::Page => Ok(()),
            _ => Err(FetchError::Non200StatusCode),
        }
    }
}

/// The page that `pageid` selects in `resp`; the not-found failure where it
/// selects none.
pub fn get_page<T: PageId>(pageid: &T, resp: &QueryResponse) -> (res: Result<Page, FetchError>)
    ensures
        match extract(pageid.identifier(), resp.query.pages) {
            Some(page) => res matches Ok(found) && found@ == page,
            None => res matches Err(FetchError::NoPage),
        },
{
    match pageid.get_page_from_response(resp) {
        Some(page) => Ok(page),
        None => Err(FetchError::NoPage),
    }
}

/// The aggregate of a pageview series: the sum of its monthly counts.
pub fn get_page_views(resp: &PageViewResponse) -> (res: Result<u64, FetchError>)
    ensures
        if sum_views(resp.items@) <= u64::MAX {
            res matches Ok(total) && total == sum_views(resp.items@)
        } else {
            res matches Err(FetchError::Custom(text)) && text@ == VIEWS_OVERFLOW@
        },
{
    match resp.total_views() {
        Some(total) => Ok(total),
        None => Err(FetchError::Custom(VIEWS_OVERFLOW.to_owned())),
    }
}

/// The aliases of the entity `wikidata_id`, each once, whatever the
/// language; the not-found failure where the answer holds no such entity.
pub fn get_alias(wikidata_id: &str, resp: &WikiDataResponse) -> (res: Result<
    Vec<String>,
    FetchError,
>)
    ensures
        match resp.entities.lookup(wikidata_id@) {
            Some(entity) => res matches Ok(list) && list.deep_view().no_duplicates()
                && list.deep_view().to_set() == entity.alias_set(),
            None => res matches Err(FetchError::NoPage),
        },
{
    match resp.get_unique_alias(wikidata_id) {
        Some(borrowed) => {
            let mut list: Vec<String> = Vec::new();
            let mut i: usize = 0;
            while i < borrowed.len()
                invariant
                    i <= borrowed.len(),
                    list@.len() == i,
                    forall|j: int| 0 <= j < i ==> (#[trigger] list@[j])@ == borrowed@[j]@,
                decreases borrowed.len() - i,
            {
                list.push(borrowed[i].to_owned());
                i = i + 1;
            }
            assert(list.deep_view() =~= borrowed.deep_view());
            Ok(list)
        },
        None => Err(FetchError::NoPage),
    }
}

/// The pages of a sequence, as mathematical values.
pub open spec fn page_views(pages: Seq<Page>) -> Seq<PageView> {
    pages.map_values(|p: Page| p@)
}

/// The traversal of a category. It runs while answers carry a continuation
/// token, and is done with the first answer that carries none.
#[derive(Debug, PartialEq, Eq)]
pub enum CatMembers {
    /// More is to be fetched: the pages gathered so far, and the token of
    /// the part to fetch next (`None` for the first part).
    Running { pages: Vec<Page>, token: Option<String> },
    /// Everything was fetched.
    Done { pages: Vec<Page> },
}

/// A traversal, as a mathematical value.
pub enum CatMembersView {
    Running { pages: Seq<PageView>, token: Option<Seq<char>> },
    Done { pages: Seq<PageView> },
}

impl View for CatMembers {
    type V = CatMembersView;

    open spec fn view(&self) -> CatMembersView {
        match self {
            CatMembers::Running { pages, token } => CatMembersView::Running {
                pages: pages.deep_view(),
                token: token.deep_view(),
            },
            CatMembers::Done { pages } => CatMembersView::Done { pages: pages.deep_view() },
        }
    }
}

/// What the traversal reads in an answer: the pages, and the token under
/// which more is to be had.
pub struct Answer {
    pub pages: Seq<PageView>,
    pub token: Option<Seq<char>>,
}

/// What the traversal reads in `resp`: its pages in the order of the page
/// map, and its token where it is set and not empty.
pub open spec fn answer_of(resp: QueryResponse) -> Answer {
    Answer { pages: page_views(resp.query.pages.values()), token: resp.next_token() }
}

/// The pages of a sequence of answers, answer after answer.
pub open spec fn all_pages(answers: Seq<Answer>) -> Seq<PageView>
    decreases answers.len(),
{
    if answers.len() == 0 {
        Seq::empty()
    } else {
        all_pages(answers.drop_last()) + answers.last().pages
    }
}

impl CatMembersView {
    /// The traversal before its first request.
    pub open spec fn initial() -> CatMembersView {
        CatMembersView::Running { pages: Seq::empty(), token: None }
    }

    /// The traversal after one more answer. A running traversal appends the
    /// pages of the answer; it goes on under the token where there is one
    /// and is done where there is none. A traversal that is done stays as it
    /// is.
    pub open spec fn step(self, answer: Answer) -> CatMembersView {
        match self {
            CatMembersView::Running { pages, token: _ } => match answer.token {
                Some(t) => CatMembersView::Running { pages: pages + answer.pages, token: Some(t) },
                None => CatMembersView::Done { pages: pages + answer.pages },
            },
            CatMembersView::Done { pages: _ } => self,
        }
    }

    /// The traversal after a sequence of answers.
    pub open spec fn run(self, answers: Seq<Answer>) -> CatMembersView
        decreases answers.len(),
    {
        if answers.len() == 0 {
            self
        } else {
            self.run(answers.drop_last()).step(answers.last())
        }
    }
}

/// While every answer carries a token, the traversal runs: it has gathered
/// the pages of all the answers and goes on under the token of the last.
pub proof fn lemma_runs_while_tokens_come(answers: Seq<Answer>)
    requires
        forall|i: int| 0 <= i < answers.len() ==> (#[trigger] answers[i]).token is Some,
    ensures
        CatMembersView::initial().run(answers) == (CatMembersView::Running {
            pages: all_pages(answers),
            token: if answers.len() == 0 {
                None
            } else {
                answers.last().token
            },
        }),
    decreases answers.len(),
{
    if answers.len() > 0 {
        let before = answers.drop_last();
        assert forall|i: int| 0 <= i < before.len() implies (#[trigger] before[i]).token is Some by {
            assert(before[i] == answers[i]);
        }
        lemma_runs_while_tokens_come(before);
    }
}

/// The traversal ends with the first answer that carries no token. Where
/// every answer but the last carries one, a request goes out before each of
/// the answers and none after the last, and the result holds the pages of
/// all the answers in the order of the requests.
pub proof fn lemma_ends_with_first_answer_without_token(answers: Seq<Answer>)
    requires
        answers.len() >= 1,
        forall|i: int| 0 <= i < answers.len() - 1 ==> (#[trigger] answers[i]).token is Some,
        answers.last().token is None,
    ensures
        CatMembersView::initial().run(answers) == (CatMembersView::Done {
            pages: all_pages(answers),
        }),
        forall|k: int|
            0 <= k < answers.len() ==> (#[trigger] CatMembersView::initial().run(
                answers.take(k),
            )) is Running,
{
    let start = CatMembersView::initial();
    assert forall|k: int| 0 <= k < answers.len() implies (#[trigger] start.run(
        answers.take(k),
    )) is Running by {
        let prefix = answers.take(k);
        assert forall|i: int| 0 <= i < prefix.len() implies (#[trigger] prefix[i]).token is Some by {
            assert(prefix[i] == answers[i]);
        }
        lemma_runs_while_tokens_come(prefix);
    }
    assert(answers.drop_last() =~= answers.take(answers.len() - 1));
    let before = answers.drop_last();
    assert forall|i: int| 0 <= i < before.len() implies (#[trigger] before[i]).token is Some by {
        assert(before[i] == answers[i]);
    }
    lemma_runs_while_tokens_come(before);
}

/// An answer whose continuation is present but whose token is empty ends a
/// running traversal, as an answer without continuation does.
pub proof fn lemma_empty_token_ends(state: CatMembersView, resp: QueryResponse)
    requires
        state is Running,
        resp.cont matches Some(cont) ==> (cont.gcmcontinue matches Some(token) ==> token@.len()
            == 0),
    ensures
        state.step(answer_of(resp)) is Done,
{
}

impl CatMembers {
    /// The traversal before its first request.
    pub fn start() -> (res: CatMembers)
        ensures
            res@ == CatMembersView::initial(),
    {
        let pages: Vec<Page> = Vec::new();
        assert(pages.deep_view() =~= Seq::<PageView>::empty());
        CatMembers::Running { pages, token: None }
    }

    /// The request to send next: the category-membership request under the
    /// current token while the traversal runs, none once it is done.
    pub fn next_request<T: PageId>(&self, caller: &AsyncCaller, pageid: &T) -> (res: Option<
        Result<Request, FetchError>,
    >)
        ensures
            match self@ {
                CatMembersView::Running { pages: _, token } => res matches Some(req) && describes(
                    req,
                    caller.target(Intent::CategoryMembers { id: pageid.identifier(), token }),
                ),
                CatMembersView::Done { pages: _ } => res is None,
            },
    {
        match self {
            CatMembers::Running { pages: _, token } => {
                let current: Option<&str> = match token {
                    Some(t) => Some(t.as_str()),
                    None => None,
                };
                Some(caller.category_params(pageid, current))
            },
            CatMembers::Done { pages: _ } => None,
        }
    }

    /// Takes in what came of the last request. An answer moves the traversal
    /// on by one step. A failure ends it at once, and the pages gathered so
    /// far are dropped with it.
    pub fn advance(self, outcome: Result<QueryResponse, FetchError>) -> (res: Result<
        CatMembers,
        FetchError,
    >)
        ensures
            match outcome {
                Ok(resp) => res matches Ok(next) && next@ == self@.step(answer_of(resp)),
                Err(failure) => match self@ {
                    CatMembersView::Running { .. } => res == Err::<CatMembers, FetchError>(failure),
                    CatMembersView::Done { .. } => res matches Ok(next) && next@ == self@,
                },
            },
    {
        match self {
            CatMembers::Running { pages, token: _ } => {
                match outcome {
                    Ok(resp) => {
                        let ghost before = pages.deep_view();
                        let ghost arrived = page_views(resp.query.pages.values());
                        let QueryResponse { batchcomplete: _, query, cont } = resp;
                        let mut pages = pages;
                        let mut fresh = query.pages.into_values();
                        assert(fresh.deep_view() =~= arrived);
                        pages.append(&mut fresh);
                        assert(pages.deep_view() =~= before + arrived);
                        let token: Option<String> = match cont {
                            Some(c) => match c.gcmcontinue {
                                Some(t) => if t.as_str().is_empty() {
                                    None
                                } else {
                                    Some(t)
                                },
                                None => None,
                            },
                            None => None,
                        };
                        match token {
                            Some(t) => Ok(CatMembers::Running { pages, token: Some(t) }),
                            None => Ok(CatMembers::Done { pages }),
                        }
                    },
                    Err(failure) => Err(failure),
                }
            },
            CatMembers::Done { pages } => Ok(CatMembers::Done { pages }),
        }
    }

    /// The members of the category, once the traversal is done.
    pub fn into_pages(self) -> (res: Option<Vec<Page>>)
        ensures
            match self@ {
                CatMembersView::Running { .. } => res is None,
                CatMembersView::Done { pages } => res matches Some(list) && list.deep_view()
                    == pages,
            },
    {
        match self {
            CatMembers::Running { pages: _, token: _ } => None,
            CatMembers::Done { pages } => Some(pages),
        }
    }
}

} // verus!
