use wikipedia::{Lang, ProxyConfig};

#[test]
fn authority_of_each_edition() {
    assert_eq!(Lang::ID.get_wiki_authority(), "id.wikipedia.org");
    assert_eq!(Lang::EN.get_wiki_authority(), "en.wikipedia.org");
}

#[test]
fn code_of_each_edition() {
    assert_eq!(Lang::ID.to_str(), "id");
    assert_eq!(Lang::EN.to_str(), "en");
}

#[test]
fn edition_from_code() {
    assert_eq!(Lang::from_str("id"), Some(Lang::ID));
    assert_eq!(Lang::from_str("en"), Some(Lang::EN));
}

#[test]
fn unknown_code_is_no_edition() {
    assert_eq!(Lang::from_str("fr"), None);
    assert_eq!(Lang::from_str(""), None);
    assert_eq!(Lang::from_str("ID"), None);
    assert_eq!(Lang::from_str("idx"), None);
    assert_eq!(Lang::from_str("i"), None);
}

#[test]
fn code_round_trip() {
    for lang in [Lang::ID, Lang::EN] {
        assert_eq!(Lang::from_str(lang.to_str()), Some(lang));
        assert_eq!(
            lang.get_wiki_authority(),
            format!("{}.wikipedia.org", lang.to_str())
        );
    }
}

#[test]
fn edition_from_url() {
    assert_eq!(
        Lang::from_url("https://id.wikipedia.org/wiki/Joko_Widodo"),
        Some(Lang::ID)
    );
    assert_eq!(Lang::from_url("http://en.wikipedia.org"), Some(Lang::EN));
    assert_eq!(
        Lang::from_url("https://en.wikipedia.org./wiki/Rust"),
        Some(Lang::EN)
    );
}

#[test]
fn url_of_unknown_edition() {
    assert_eq!(Lang::from_url("https://fr.wikipedia.org/wiki/Rust"), None);
}

#[test]
fn url_that_is_no_wiki_url() {
    assert_eq!(Lang::from_url("https://www.wikipedia.org/"), None);
    assert_eq!(Lang::from_url("ftp://id.wikipedia.org/"), None);
    assert_eq!(Lang::from_url("see https://id.wikipedia.org/"), None);
    assert_eq!(Lang::from_url("https://id.wikipedia.com/"), None);
    assert_eq!(Lang::from_url("https://ID.wikipedia.org/"), None);
    assert_eq!(Lang::from_url("id"), None);
    assert_eq!(Lang::from_url(""), None);
}

#[test]
fn proxy_without_user_has_no_credentials() {
    let proxy = ProxyConfig {
        host: "http://proxy.example:3128",
        username: None,
        password: Some("secret"),
    };
    assert_eq!(proxy.credentials(), None);
}

#[test]
fn proxy_with_user_and_password() {
    let proxy = ProxyConfig {
        host: "http://proxy.example:3128",
        username: Some("alice"),
        password: Some("secret"),
    };
    assert_eq!(proxy.credentials(), Some(("alice", "secret")));
}

#[test]
fn proxy_with_user_and_no_password() {
    let proxy = ProxyConfig {
        host: "http://proxy.example:3128",
        username: Some("alice"),
        password: None,
    };
    assert_eq!(proxy.credentials(), Some(("alice", "")));
}
