//! The request builder: from a query intent to the target of a GET request.
//!
//! Four intents are served: a page query and a category-membership query on
//! the wiki, a pageview query on the analytics service, and an entity query on
//! the linked-data store. Every request is a GET with an empty body, so a
//! request is described by its target URI.

use vstd::prelude::*;
use crate::encoding::{encode_path_segment, form_urlencoded, path_segment};
use crate::errors::FetchError;
use crate::request::{cat_param_name, param_name, query_value, PageId, PageIdentifierView};
use crate::trusted::{assemble_uri, form_urlencode, format_utc, uri_text, utc_formatted};

verus! {

/// The host of the analytics service.
pub const ANALYTICS_AUTHORITY: &'static str = "wikimedia.org";

/// The host of the linked-data store.
pub const WIKIDATA_AUTHORITY: &'static str = "www.wikidata.org";

/// The scheme of every request.
pub const SCHEME: &'static str = "https";

/// The path of the query API, on the wiki and on the linked-data store.
pub const API_PATH: &'static str = "/w/api.php";

/// What follows a language code in the host name of a wiki edition.
pub const WIKI_DOMAIN: &'static str = ".wikipedia.org";

/// The path of the monthly per-article pageview series, up to the wiki's host name.
pub const PAGEVIEWS_PREFIX: &'static str = "/api/rest_v1/metrics/pageviews/per-article/";

/// The format of the year and month of a date in a pageview path.
pub const YEAR_MONTH: &'static str = "%Y%m";

/// The day of every date in a pageview path: dates are truncated to the
/// first day of their month.
pub const FIRST_DAY: &'static str = "01";

/// The seconds in the thirty days that count as one month of retention.
pub const SECONDS_PER_MONTH: i128 = 2592000;

/// The failure of a builder whose target is not a valid URI.
pub const INVALID_TARGET: &'static str = "the request target is not a valid URI";

/// The failure of the pageview builder whose dates lie outside the calendar.
pub const DATE_OUT_OF_RANGE: &'static str = "the date range is outside the calendar";

/// The method of a request. The client only reads.
#[derive(Debug, Clone, Copy, PartialEq, Eq, Structural)]
pub enum Method {
    Get,
}

/// A request: its method and its target. The body is always empty.
#[derive(Debug, PartialEq, Eq)]
pub struct Request {
    pub method: Method,
    pub uri: String,
}

/// A request, as a mathematical value.
pub struct RequestView {
    pub method: Method,
    pub uri: Seq<char>,
}

impl View for Request {
    type V = RequestView;

    open spec fn view(&self) -> RequestView {
        RequestView { method: self.method, uri: self.uri@ }
    }
}

/// What a caller may want to ask, as a mathematical value.
pub enum Intent {
    /// The metadata of one page.
    Page { id: PageIdentifierView },
    /// One part of the members of a category: the first part where `token`
    /// is `None`, else the part that the token stands for.
    CategoryMembers { id: PageIdentifierView, token: Option<Seq<char>> },
    /// The monthly views of a page over the `months` months of thirty days
    /// that end at the instant `now`, in seconds since the start of 1970.
    PageViews { title: Seq<char>, months: i64, now: i64 },
    /// The aliases of an entity in the languages `languages`, a list of
    /// language codes with `|` between them.
    LinkedData { entity: Seq<char>, languages: Seq<char> },
}

/// The parameters of a page query.
pub open spec fn page_query_pairs(id: PageIdentifierView) -> Seq<(Seq<char>, Seq<char>)> {
    seq![
        ("format"@, "json"@),
        ("action"@, "query"@),
        ("redirects"@, "1"@),
        ("prop"@, "info|extracts|categories|pageprops"@),
        ("ppprop"@, "wikibase_item"@),
        ("exintro"@, "true"@),
        ("explaintext"@, "true"@),
        ("inprop"@, "url"@),
        ("cllimit"@, "20"@),
        ("clshow"@, "!hidden"@),
        (param_name(id), query_value(id)),
    ]
}

/// The parameters of a category-membership query: the fixed ones, the
/// category, and the continuation token where there is one.
pub open spec fn category_pairs(id: PageIdentifierView, token: Option<Seq<char>>) -> Seq<
    (Seq<char>, Seq<char>),
> {
    let fixed = seq![
        ("format"@, "json"@),
        ("action"@, "query"@),
        ("redirects"@, "1"@),
        ("generator"@, "categorymembers"@),
        ("prop"@, "info|pageprops"@),
        ("ppprop"@, "wikibase_item"@),
        ("inprop"@, "url"@),
        (cat_param_name(id), query_value(id)),
        ("gcmlimit"@, "500"@),
        ("gcmtype"@, "page|subcat"@),
    ];
    match token {
        Some(t) => fixed.push(("gcmcontinue"@, t)),
        None => fixed,
    }
}

/// The parameters of an entity query.
pub open spec fn wikidata_pairs(id: Seq<char>, languages: Seq<char>) -> Seq<
    (Seq<char>, Seq<char>),
> {
    seq![
        ("format"@, "json"@),
        ("action"@, "wbgetentities"@),
        ("ids"@, id),
        ("props"@, "aliases"@),
        ("languages"@, languages),
    ]
}

/// The instant at which the retention period of a pageview query starts.
pub open spec fn retention_start(now: i64, months: i64) -> int {
    now - months * SECONDS_PER_MONTH
}

/// The first day of the month of an instant, as the pageview path writes
/// it: year and month as the calendar prints them, then day 01. There is none
/// for an instant outside the calendar.
pub open spec fn month_stamp(instant: int) -> Option<Seq<char>> {
    if i64::MIN <= instant <= i64::MAX {
        match utc_formatted(instant as i64, YEAR_MONTH@) {
            Some(year_month) => Some(year_month + FIRST_DAY@),
            None => None,
        }
    } else {
        None
    }
}

/// Whether `res` is what a builder owes for the target `target`: the GET
/// request to that URI, or the failure with that message.
pub open spec fn describes(
    res: Result<Request, FetchError>,
    target: Result<Seq<char>, Seq<char>>,
) -> bool {
    match target {
        Ok(uri) => res matches Ok(req) && req@ == (RequestView { method: Method::Get, uri }),
        Err(message) => res matches Err(FetchError::Custom(text)) && text@ == message,
    }
}

/// The configuration of the client: where each service lives.
#[derive(Debug, PartialEq, Eq)]
pub struct AsyncCaller {
    /// The host of the analytics service, for pageviews.
    pub authority: &'static str,
    /// The host of the wiki, for pages and categories.
    pub wiki_authority: String,
    /// The host of the linked-data store, for entities.
    pub wikidata_authority: &'static str,
    /// The scheme of every request.
    pub scheme: &'static str,
    /// The path of the query API on the wiki and on the linked-data store.
    pub api_path: &'static str,
}

impl Clone for AsyncCaller {
    fn clone(&self) -> (res: Self)
        ensures
            res.authority@ == self.authority@,
            res.wiki_authority@ == self.wiki_authority@,
            res.wikidata_authority@ == self.wikidata_authority@,
            res.scheme@ == self.scheme@,
            res.api_path@ == self.api_path@,
    {
        AsyncCaller {
            authority: self.authority,
            wiki_authority: self.wiki_authority.clone(),
            wikidata_authority: self.wikidata_authority,
            scheme: self.scheme,
            api_path: self.api_path,
        }
    }
}

impl AsyncCaller {
    /// The target of a query with parameters `pairs` on the API of the host
    /// `authority`: the URI of scheme, host, API path and, after a question
    /// mark, the form-encoded parameters; or the message of the failure to
    /// build it.
    pub open spec fn wiki_target(
        self,
        authority: Seq<char>,
        pairs: Seq<(Seq<char>, Seq<char>)>,
    ) -> Result<Seq<char>, Seq<char>> {
        Self::target_of(
            uri_text(self.scheme@, authority, self.api_path@ + "?"@ + form_urlencoded(pairs)),
        )
    }

    /// The path of the pageview series of `title` between two month stamps.
    pub open spec fn pageviews_path_of(
        self,
        title: Seq<char>,
        start: Seq<char>,
        end: Seq<char>,
    ) -> Seq<char> {
        PAGEVIEWS_PREFIX@ + self.wiki_authority@ + "/all-access/all-agents/"@ + path_segment(title)
            + "/monthly/"@ + start + "/"@ + end
    }

    /// A URI that was built is the target; one that was rejected is a failure.
    pub open spec fn target_of(uri: Option<Seq<char>>) -> Result<Seq<char>, Seq<char>> {
        match uri {
            Some(text) => Ok(text),
            None => Err(INVALID_TARGET@),
        }
    }

    /// The target of the request that serves `intent`, or the message of the
    /// failure to build it.
    pub open spec fn target(self, intent: Intent) -> Result<Seq<char>, Seq<char>> {
        match intent {
            Intent::Page { id } => self.wiki_target(self.wiki_authority@, page_query_pairs(id)),
            Intent::CategoryMembers { id, token } => self.wiki_target(
                self.wiki_authority@,
                category_pairs(id, token),
            ),
            Intent::PageViews { title, months, now } => match (
                month_stamp(retention_start(now, months)),
                month_stamp(now as int),
            ) {
                (Some(start), Some(end)) => Self::target_of(
                    uri_text(self.scheme@, self.authority@, self.pageviews_path_of(title, start, end)),
                ),
                _ => Err(DATE_OUT_OF_RANGE@),
            },
            Intent::LinkedData { entity, languages } => self.wiki_target(
                self.wikidata_authority@,
                wikidata_pairs(entity, languages),
            ),
        }
    }

    /// The configuration for the wiki edition with language code `lang`.
    pub fn new(lang: &str) -> (res: AsyncCaller)
        ensures
            res.authority@ == ANALYTICS_AUTHORITY@,
            res.wiki_authority@ == lang@ + WIKI_DOMAIN@,
            res.wikidata_authority@ == WIKIDATA_AUTHORITY@,
            res.scheme@ == SCHEME@,
            res.api_path@ == API_PATH@,
    {
        let mut wiki_authority = lang.to_owned();
        wiki_authority.append(WIKI_DOMAIN);
        AsyncCaller {
            authority: ANALYTICS_AUTHORITY,
            wiki_authority,
            wikidata_authority: WIKIDATA_AUTHORITY,
            scheme: SCHEME,
            api_path: API_PATH,
        }
    }

    /// The request for a target that the URI builder accepted, or the failure
    /// for one that it rejected.
    pub fn request_to(uri: Option<String>) -> (res: Result<Request, FetchError>)
        ensures
            describes(res, Self::target_of(uri.deep_view())),
    {
        match uri {
            Some(text) => Ok(Request { method: Method::Get, uri: text }),
            None => Err(FetchError::Custom(INVALID_TARGET.to_owned())),
        }
    }

    /// The path and query of an API call whose encoded parameters are `query`.
    pub fn api_target(&self, query: &str) -> (res: String)
        ensures
            res@ == self.api_path@ + "?"@ + query@,
    {
        let mut target = self.api_path.to_owned();
        target.append("?");
        target.append(query);
        target
    }

    /// The request for a query with parameters `params` on the API of the
    /// host `authority`.
    pub fn build_wiki_uri(&self, authority: &str, params: &Vec<(&str, &str)>) -> (res: Result<
        Request,
        FetchError,
    >)
        ensures
            describes(res, self.wiki_target(authority@, params.deep_view())),
    {
        match form_urlencode(params) {
            Some(query) => {
                let target = self.api_target(query.as_str());
                Self::request_to(assemble_uri(self.scheme, authority, target.as_str()))
            },
            // The encoder refuses no list of pairs of strings.
            None => Err(FetchError::Custom(INVALID_TARGET.to_owned())),
        }
    }

    /// The request for the metadata of the page `pageid`.
    pub fn query_params<T: PageId>(&self, pageid: &T) -> (res: Result<Request, FetchError>)
        ensures
            describes(res, self.target(Intent::Page { id: pageid.identifier() })),
    {
        let q = pageid.query_value();
        let params: Vec<(&str, &str)> = vec![
            ("format", "json"),
            ("action", "query"),
            ("redirects", "1"),
            ("prop", "info|extracts|categories|pageprops"),
            ("ppprop", "wikibase_item"),
            ("exintro", "true"),
            ("explaintext", "true"),
            ("inprop", "url"),
            ("cllimit", "20"),
            ("clshow", "!hidden"),
            (pageid.get_param_name(), q.as_str()),
        ];
        assert(params.deep_view() =~= page_query_pairs(pageid.identifier()));
        self.build_wiki_uri(self.wiki_authority.as_str(), &params)
    }

    /// The request for one part of the members of the category `pageid`:
    /// the first part where `gcmcontinue` is `None`, else the part that the
    /// token stands for.
    pub fn category_params<T: PageId>(&self, pageid: &T, gcmcontinue: Option<&str>) -> (res:
        Result<Request, FetchError>)
        ensures
            describes(
                res,
                self.target(
                    Intent::CategoryMembers {
                        id: pageid.identifier(),
                        token: gcmcontinue.deep_view(),
                    },
                ),
            ),
    {
        let q = pageid.query_value();
        let mut params: Vec<(&str, &str)> = vec![
            ("format", "json"),
            ("action", "query"),
            ("redirects", "1"),
            ("generator", "categorymembers"),
            ("prop", "info|pageprops"),
            ("ppprop", "wikibase_item"),
            ("inprop", "url"),
            (pageid.get_cat_param_name(), q.as_str()),
            ("gcmlimit", "500"),
            ("gcmtype", "page|subcat"),
        ];
        match gcmcontinue {
            Some(token) => {
                params.push(("gcmcontinue", token));
            },
            None => {},
        }
        assert(params.deep_view() =~= category_pairs(
            pageid.identifier(),
            gcmcontinue.deep_view(),
        ));
        self.build_wiki_uri(self.wiki_authority.as_str(), &params)
    }

    /// The request for the aliases of the entity `wikidata_id` in the
    /// languages `lang`, a list of language codes with `|` between them.
    pub fn wikidata_params(&self, wikidata_id: &str, lang: &str) -> (res: Result<
        Request,
        FetchError,
    >)
        ensures
            describes(
                res,
                self.target(Intent::LinkedData { entity: wikidata_id@, languages: lang@ }),
            ),
    {
        let params: Vec<(&str, &str)> = vec![
            ("format", "json"),
            ("action", "wbgetentities"),
            ("ids", wikidata_id),
            ("props", "aliases"),
            ("languages", lang),
        ];
        assert(params.deep_view() =~= wikidata_pairs(wikidata_id@, lang@));
        self.build_wiki_uri(self.wikidata_authority, &params)
    }

    /// The first day of the month of `instant`, as the pageview path writes
    /// it; `None` where the instant lies outside the calendar.
    pub fn month_stamp_of(instant: i128) -> (res: Option<String>)
        ensures
            res.deep_view() == month_stamp(instant as int),
    {
        if instant < i64::MIN as i128 || instant > i64::MAX as i128 {
            None
        } else {
            match format_utc(instant as i64, YEAR_MONTH) {
                Some(year_month) => {
                    let mut stamp = year_month;
                    stamp.append(FIRST_DAY);
                    Some(stamp)
                },
                None => None,
            }
        }
    }

    /// The path of the pageview series of `page_title` between the month
    /// stamps `start` and `end`.
    pub fn pageviews_path(&self, page_title: &str, start: &str, end: &str) -> (res: String)
        ensures
            res@ == self.pageviews_path_of(page_title@, start@, end@),
    {
        let mut path = PAGEVIEWS_PREFIX.to_owned();
        path.append(self.wiki_authority.as_str());
        path.append("/all-access/all-agents/");
        let segment = encode_path_segment(page_title);
        path.append(segment.as_str());
        path.append("/monthly/");
        path.append(start);
        path.append("/");
        path.append(end);
        path
    }

    /// The request for the monthly views of `page_title` over the
    /// `month_retention` months of thirty days that end at the instant `now`,
    /// in seconds since the start of 1970. The caller reads the clock; the
    /// request is a function of the instant that it hands in.
    ///
    /// The title is one segment of the path, and `#` is not among the
    /// characters that are escaped in it. The URI builder ends the path at a
    /// `#`: for a title that holds one, the target that is built ends before
    /// the `#` and carries neither the rest of the title nor the two dates.
    pub fn get_pageviews_req(&self, page_title: &str, month_retention: i64, now: i64) -> (res:
        Result<Request, FetchError>)
        ensures
            describes(
                res,
                self.target(
                    Intent::PageViews { title: page_title@, months: month_retention, now },
                ),
            ),
    {
        let start_instant: i128 = (now as i128) - (month_retention as i128) * SECONDS_PER_MONTH;
        let start = Self::month_stamp_of(start_instant);
        let end = Self::month_stamp_of(now as i128);
        match (start, end) {
            (Some(s), Some(e)) => {
                let path = self.pageviews_path(page_title, s.as_str(), e.as_str());
                Self::request_to(assemble_uri(self.scheme, self.authority, path.as_str()))
            },
            _ => Err(FetchError::Custom(DATE_OUT_OF_RANGE.to_owned())),
        }
    }
}

/// Every date of a pageview path is the first day of a month: it ends in `01`.
pub proof fn lemma_month_stamp_is_a_first_day(instant: int)
    ensures
        month_stamp(instant) matches Some(stamp) ==> stamp.len() >= 2 && stamp[stamp.len() - 2]
            == '0' && stamp[stamp.len() - 1] == '1',
{
    reveal_strlit("01");
}

/// With a retention of no months the period starts in the month in which it
/// ends: the two dates of the path are the same.
pub proof fn lemma_no_retention_same_month(now: i64)
    ensures
        month_stamp(retention_start(now, 0)) == month_stamp(now as int),
{
}

/// Building is repeatable: whatever two builds for the same intent under the
/// same configuration return, it is the same request, or the same failure.
pub proof fn lemma_building_is_repeatable(
    caller: AsyncCaller,
    intent: Intent,
    first: Result<Request, FetchError>,
    second: Result<Request, FetchError>,
)
    requires
        describes(first, caller.target(intent)),
        describes(second, caller.target(intent)),
    ensures
        match (first, second) {
            (Ok(a), Ok(b)) => a@ == b@,
            (Err(FetchError::Custom(a)), Err(FetchError::Custom(b))) => a@ == b@,
            _ => false,
        },
{
}

} // verus!
