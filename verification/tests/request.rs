use wikipedia::ordered_map::OrderedMap;
use wikipedia::request::{first_found_page, page_by_key, PageId, PageIdentifier, NOT_FOUND_KEY};
use wikipedia::response::{Namespace, Page, Query, QueryResponse};

fn page_numbered(pageid: u64, title: &str) -> Page {
    Page {
        pageid,
        title: title.to_string(),
        canonicalurl: format!("https://id.wikipedia.org/wiki/{}", title),
        ns: Namespace::Page,
        desc: None,
        categories: None,
        pageprops: None,
    }
}

fn answer_keyed(entries: &[(&str, u64, &str)]) -> QueryResponse {
    let mut pages = OrderedMap::new();
    for (key, pageid, title) in entries {
        pages.insert(key.to_string(), page_numbered(*pageid, title));
    }
    QueryResponse {
        batchcomplete: Some(String::new()),
        query: Query { pages },
        cont: None,
    }
}

#[test]
fn the_sentinel_key_is_minus_one() {
    assert_eq!(NOT_FOUND_KEY, "-1");
}

#[test]
fn parameter_names_of_a_numeric_id() {
    assert_eq!(31706u64.get_param_name(), "pageids");
    assert_eq!(31706u64.get_cat_param_name(), "gcmpageid");
    assert_eq!(31706u64.query_value(), "31706");
}

#[test]
fn parameter_names_of_a_title() {
    assert_eq!("Joko Widodo".get_param_name(), "titles");
    assert_eq!("Joko Widodo".get_cat_param_name(), "gcmtitle");
    assert_eq!("Joko Widodo".query_value(), "Joko Widodo");
    let owned = "Joko Widodo".to_string();
    assert_eq!(owned.get_param_name(), "titles");
    assert_eq!(owned.get_cat_param_name(), "gcmtitle");
    assert_eq!(owned.query_value(), "Joko Widodo");
}

#[test]
fn parameter_names_of_an_identifier() {
    let numeric = PageIdentifier::NumericId(7);
    assert_eq!(numeric.get_param_name(), "pageids");
    assert_eq!(numeric.get_cat_param_name(), "gcmpageid");
    assert_eq!(numeric.query_value(), "7");
    let title = PageIdentifier::Title("Rust".to_string());
    assert_eq!(title.get_param_name(), "titles");
    assert_eq!(title.get_cat_param_name(), "gcmtitle");
    assert_eq!(title.query_value(), "Rust");
    assert_eq!(title.clone(), title);
    assert_eq!(numeric.clone(), numeric);
}

#[test]
fn a_numeric_id_selects_the_page_under_its_key() {
    let resp = answer_keyed(&[("5", 5, "Five"), ("31706", 31706, "Joko Widodo"), ("317", 317, "X")]);
    assert_eq!(
        31706u64.get_page_from_response(&resp),
        Some(page_numbered(31706, "Joko Widodo"))
    );
    assert_eq!(
        317u64.get_page_from_response(&resp),
        Some(page_numbered(317, "X"))
    );
    assert_eq!(
        PageIdentifier::NumericId(5).get_page_from_response(&resp),
        Some(page_numbered(5, "Five"))
    );
}

#[test]
fn a_numeric_id_goes_by_the_key_and_not_by_the_page() {
    let resp = answer_keyed(&[("8", 9, "Nine under eight")]);
    assert_eq!(
        8u64.get_page_from_response(&resp),
        Some(page_numbered(9, "Nine under eight"))
    );
    assert_eq!(9u64.get_page_from_response(&resp), None);
}

#[test]
fn a_numeric_id_whose_key_is_absent_selects_nothing() {
    let resp = answer_keyed(&[("5", 5, "Five"), ("-1", 0, "Missing")]);
    assert_eq!(31706u64.get_page_from_response(&resp), None);
    assert_eq!(1u64.get_page_from_response(&resp), None);
    assert_eq!(0u64.get_page_from_response(&answer_keyed(&[])), None);
    assert_eq!(5u64.get_page_from_response(&answer_keyed(&[("05", 5, "Five")])), None);
}

#[test]
fn a_title_selects_the_first_page() {
    let resp = answer_keyed(&[("31706", 31706, "Joko Widodo"), ("5", 5, "Five")]);
    assert_eq!(
        "Joko Widodo".get_page_from_response(&resp),
        Some(page_numbered(31706, "Joko Widodo"))
    );
    assert_eq!(
        "anything".to_string().get_page_from_response(&resp),
        Some(page_numbered(31706, "Joko Widodo"))
    );
    assert_eq!(
        PageIdentifier::Title("x".to_string()).get_page_from_response(&resp),
        Some(page_numbered(31706, "Joko Widodo"))
    );
}

#[test]
fn a_title_passes_over_the_sentinel_key() {
    let resp = answer_keyed(&[("-1", 0, "Missing"), ("5", 5, "Five"), ("6", 6, "Six")]);
    assert_eq!(
        "Five".get_page_from_response(&resp),
        Some(page_numbered(5, "Five"))
    );
}

#[test]
fn a_title_selects_nothing_in_an_empty_answer() {
    assert_eq!("Five".get_page_from_response(&answer_keyed(&[])), None);
}

#[test]
fn a_title_selects_nothing_where_only_the_sentinel_is_there() {
    let resp = answer_keyed(&[("-1", 0, "Missing")]);
    assert_eq!("Missing".get_page_from_response(&resp), None);
    assert_eq!("Missing".to_string().get_page_from_response(&resp), None);
}

#[test]
fn page_by_its_key() {
    let resp = answer_keyed(&[("5", 5, "Five"), ("-1", 0, "Missing")]);
    assert_eq!(
        page_by_key(&resp.query.pages, "5"),
        Some(page_numbered(5, "Five"))
    );
    assert_eq!(
        page_by_key(&resp.query.pages, "-1"),
        Some(page_numbered(0, "Missing"))
    );
    assert_eq!(page_by_key(&resp.query.pages, "6"), None);
}

#[test]
fn first_page_that_was_found() {
    let resp = answer_keyed(&[("-1", 0, "Missing"), ("6", 6, "Six")]);
    assert_eq!(
        first_found_page(&resp.query.pages),
        Some(page_numbered(6, "Six"))
    );
}
