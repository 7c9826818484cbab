use hyper::body::HttpBody;
use wikipedia::async_request::AsyncCaller;
use wikipedia::engine::{
    check_status, get_alias, get_page, get_page_views, CatMembers, QueryKind, VIEWS_OVERFLOW,
};
use wikipedia::errors::FetchError;
use wikipedia::ordered_map::OrderedMap;
use wikipedia::response::{
    Cont, LangData, Namespace, Page, PageViewItem, PageViewResponse, Query, QueryResponse,
    WikiData, WikiDataResponse,
};

fn member(pageid: u64) -> Page {
    Page {
        pageid,
        title: format!("Page {}", pageid),
        canonicalurl: format!("https://id.wikipedia.org/wiki/Page_{}", pageid),
        ns: Namespace::Page,
        desc: None,
        categories: None,
        pageprops: None,
    }
}

fn part(ids: &[u64], cont: Option<Cont>) -> QueryResponse {
    let mut pages = OrderedMap::new();
    for id in ids {
        pages.insert(id.to_string(), member(*id));
    }
    QueryResponse {
        batchcomplete: None,
        query: Query { pages },
        cont,
    }
}

fn token(text: &str) -> Option<Cont> {
    Some(Cont {
        gcmcontinue: Some(text.to_string()),
    })
}

fn entity(aliases: &[(&str, &[&str])]) -> WikiData {
    let mut map = OrderedMap::new();
    for (lang, values) in aliases {
        let list = values
            .iter()
            .map(|v| LangData {
                value: v.to_string(),
            })
            .collect();
        map.insert(lang.to_string(), list);
    }
    WikiData {
        aliases: map,
        sitelinks: OrderedMap::new(),
    }
}

fn walk(responses: Vec<QueryResponse>) -> (usize, Vec<String>, Option<Vec<Page>>) {
    let caller = AsyncCaller::new("id");
    let mut incoming = responses.into_iter();
    let mut state = CatMembers::start();
    let mut sent = Vec::new();
    while let Some(request) = state.next_request(&caller, &"Kategori:X") {
        sent.push(request.unwrap().uri);
        match incoming.next() {
            Some(resp) => state = state.advance(Ok(resp)).unwrap(),
            None => return (sent.len(), sent, None),
        }
    }
    (sent.len(), sent, state.into_pages())
}

#[test]
fn status_200_is_accepted_everywhere() {
    for kind in [
        QueryKind::Page,
        QueryKind::CategoryMembers,
        QueryKind::PageViews,
        QueryKind::LinkedData,
    ] {
        assert!(check_status(kind, 200).is_ok());
    }
}

#[test]
fn a_page_query_goes_on_whatever_the_status() {
    assert!(check_status(QueryKind::Page, 404).is_ok());
    assert!(check_status(QueryKind::Page, 500).is_ok());
    assert!(check_status(QueryKind::Page, 0).is_ok());
    assert!(check_status(QueryKind::Page, 201).is_ok());
}

#[test]
fn other_queries_fail_on_a_status_other_than_200() {
    for kind in [
        QueryKind::CategoryMembers,
        QueryKind::PageViews,
        QueryKind::LinkedData,
    ] {
        for status in [0u16, 199, 201, 204, 301, 404, 500, u16::MAX] {
            assert!(matches!(
                check_status(kind, status),
                Err(FetchError::Non200StatusCode)
            ));
        }
    }
}

#[test]
fn get_page_returns_the_selected_page() {
    let resp = part(&[5, 31706], None);
    assert_eq!(get_page(&31706u64, &resp).unwrap(), member(31706));
    assert_eq!(get_page(&"whatever", &resp).unwrap(), member(5));
}

#[test]
fn get_page_reports_a_missing_page() {
    let resp = part(&[5], None);
    assert!(matches!(get_page(&6u64, &resp), Err(FetchError::NoPage)));
    let empty = part(&[], None);
    assert!(matches!(get_page(&"Five", &empty), Err(FetchError::NoPage)));
    assert!(matches!(get_page(&5u64, &empty), Err(FetchError::NoPage)));
}

#[test]
fn get_page_views_adds_the_months_up() {
    let resp = PageViewResponse {
        items: vec![
            PageViewItem { views: 1200 },
            PageViewItem { views: 0 },
            PageViewItem { views: 34 },
        ],
    };
    assert_eq!(get_page_views(&resp).unwrap(), 1234);
    assert_eq!(
        get_page_views(&PageViewResponse { items: vec![] }).unwrap(),
        0
    );
}

#[test]
fn get_page_views_reports_a_sum_that_does_not_fit() {
    let resp = PageViewResponse {
        items: vec![PageViewItem { views: u64::MAX }, PageViewItem { views: 1 }],
    };
    match get_page_views(&resp) {
        Err(FetchError::Custom(text)) => assert_eq!(text, VIEWS_OVERFLOW),
        other => panic!("expected a failure in words, got {:?}", other),
    }
}

#[test]
fn aliases_collapse_duplicates_across_languages() {
    let mut entities = OrderedMap::new();
    entities.insert(
        "Q1".to_string(),
        entity(&[("en", &["A", "B"]), ("id", &["B", "C"])]),
    );
    let resp = WikiDataResponse { entities };
    let mut aliases = get_alias("Q1", &resp).unwrap();
    assert_eq!(aliases.len(), 3);
    aliases.sort();
    assert_eq!(aliases, vec!["A", "B", "C"]);
}

#[test]
fn aliases_of_an_absent_entity_are_not_found() {
    let mut entities = OrderedMap::new();
    entities.insert("Q1".to_string(), entity(&[("en", &["A"])]));
    let resp = WikiDataResponse { entities };
    assert!(matches!(get_alias("Q2", &resp), Err(FetchError::NoPage)));
    assert!(matches!(get_alias("q1", &resp), Err(FetchError::NoPage)));
    let empty = WikiDataResponse {
        entities: OrderedMap::new(),
    };
    assert!(matches!(get_alias("Q1", &empty), Err(FetchError::NoPage)));
}

#[test]
fn three_answers_take_three_requests() {
    let (requests, sent, pages) = walk(vec![
        part(&[1, 2], token("t1")),
        part(&[3], token("t2")),
        part(&[4, 5], None),
    ]);
    assert_eq!(requests, 3);
    assert_eq!(
        pages.unwrap(),
        vec![member(1), member(2), member(3), member(4), member(5)]
    );
    assert!(!sent[0].contains("gcmcontinue"));
    assert!(sent[1].ends_with("&gcmcontinue=t1"));
    assert!(sent[2].ends_with("&gcmcontinue=t2"));
}

#[test]
fn an_empty_token_ends_the_traversal() {
    let (requests, _, pages) = walk(vec![
        part(&[1], token("t1")),
        part(&[2], token("t2")),
        part(&[3], token("")),
        part(&[4], None),
    ]);
    assert_eq!(requests, 3);
    assert_eq!(pages.unwrap(), vec![member(1), member(2), member(3)]);
}

#[test]
fn a_continuation_without_token_ends_the_traversal() {
    let (requests, _, pages) = walk(vec![
        part(&[1], Some(Cont { gcmcontinue: None })),
        part(&[2], None),
    ]);
    assert_eq!(requests, 1);
    assert_eq!(pages.unwrap(), vec![member(1)]);
}

#[test]
fn a_single_answer_without_continuation() {
    let (requests, sent, pages) = walk(vec![part(&[9, 8, 7], None)]);
    assert_eq!(requests, 1);
    assert_eq!(sent.len(), 1);
    assert_eq!(pages.unwrap(), vec![member(9), member(8), member(7)]);
}

#[test]
fn an_answer_without_pages_still_counts() {
    let (requests, _, pages) = walk(vec![part(&[], token("t")), part(&[], None)]);
    assert_eq!(requests, 2);
    assert_eq!(pages.unwrap(), Vec::<Page>::new());
}

#[test]
fn a_traversal_starts_running_and_empty() {
    let state = CatMembers::start();
    assert_eq!(
        state,
        CatMembers::Running {
            pages: vec![],
            token: None
        }
    );
    assert_eq!(state.into_pages(), None);
}

#[test]
fn a_running_traversal_has_no_result_yet() {
    let state = CatMembers::start()
        .advance(Ok(part(&[1], token("t"))))
        .unwrap();
    assert_eq!(
        state,
        CatMembers::Running {
            pages: vec![member(1)],
            token: Some("t".to_string())
        }
    );
    assert_eq!(state.into_pages(), None);
}

#[test]
fn a_failure_ends_the_traversal_and_drops_the_pages() {
    let state = CatMembers::start()
        .advance(Ok(part(&[1, 2], token("t"))))
        .unwrap();
    let res = state.advance(Err(FetchError::Non200StatusCode));
    assert!(matches!(res, Err(FetchError::Non200StatusCode)));
    let res = CatMembers::start().advance(Err(FetchError::Custom("down".to_string())));
    match res {
        Err(FetchError::Custom(text)) => assert_eq!(text, "down"),
        other => panic!("expected the failure that was handed in, got {:?}", other),
    }
}

#[test]
fn a_decoding_failure_is_carried_as_it_is() {
    let broken = serde_json::from_str::<u32>("{").unwrap_err();
    let text = broken.to_string();
    match CatMembers::start().advance(Err(FetchError::from(broken))) {
        Err(FetchError::Json(e)) => assert_eq!(e.to_string(), text),
        other => panic!("expected the decoding failure, got {:?}", other),
    }
}

#[test]
fn a_finished_traversal_stays_as_it_is() {
    let done = CatMembers::start().advance(Ok(part(&[1], None))).unwrap();
    assert_eq!(
        done,
        CatMembers::Done {
            pages: vec![member(1)]
        }
    );
    let caller = AsyncCaller::new("id");
    assert!(done.next_request(&caller, &1u64).is_none());
    let still = done.advance(Ok(part(&[2], token("t")))).unwrap();
    assert_eq!(
        still,
        CatMembers::Done {
            pages: vec![member(1)]
        }
    );
    let still = still.advance(Err(FetchError::NoPage)).unwrap();
    assert_eq!(still.into_pages().unwrap(), vec![member(1)]);
}

#[test]
fn the_request_of_a_traversal_is_the_category_request() {
    let caller = AsyncCaller::new("id");
    let state = CatMembers::start();
    assert_eq!(
        state.next_request(&caller, &69084u64).unwrap().unwrap(),
        caller.category_params(&69084u64, None).unwrap()
    );
    let state = state.advance(Ok(part(&[1], token("a|b")))).unwrap();
    assert_eq!(
        state.next_request(&caller, &69084u64).unwrap().unwrap(),
        caller.category_params(&69084u64, Some("a|b")).unwrap()
    );
}

#[test]
fn a_transport_failure_is_carried_as_it_is() {
    let runtime = tokio::runtime::Builder::new_current_thread()
        .build()
        .unwrap();
    let broken = runtime.block_on(async {
        let (sender, mut body) = hyper::Body::channel();
        sender.abort();
        body.data().await.unwrap().unwrap_err()
    });
    let text = broken.to_string();
    let state = CatMembers::start()
        .advance(Ok(part(&[1], token("t"))))
        .unwrap();
    match state.advance(Err(FetchError::from(broken))) {
        Err(FetchError::Http(e)) => assert_eq!(e.to_string(), text),
        other => panic!("expected the transport failure, got {:?}", other),
    }
}
