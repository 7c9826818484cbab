//! Query engine for a MediaWiki wiki, its pageview analytics and its
//! linked-data store: request construction, response model, page
//! extraction, category traversal and alias resolution.
//!
//! The library computes and decides; it neither sends nor receives, and it
//! does not read the clock. A caller sends the requests that `async_request`
//! builds, hands in the instant where a request depends on one, and hands the
//! decoded answers to `engine`.

pub mod async_request;
pub mod encoding;
pub mod engine;
pub mod errors;
pub mod ordered_map;
pub mod request;
pub mod response;
pub mod text;
pub mod trusted;

use vstd::prelude::*;
use crate::text::str_eq;
use crate::trusted::{regex_first_group, regex_group_one};

verus! {

/// The regular expression that finds the language code in the URL of a wiki
/// edition: the code is its first group.
pub const LANG_URL_PATTERN: &'static str = "^https?://([a-z]{2})\\.wikipedia\\.org\\.*";

/// How to reach the services through a forward proxy.
#[derive(Debug, Clone, Copy, PartialEq, Eq)]
pub struct ProxyConfig<'a> {
    pub host: &'a str,
    pub username: Option<&'a str>,
    pub password: Option<&'a str>,
}

impl<'a> ProxyConfig<'a> {
    /// The user name and password to present to the proxy. Without a user
    /// name there are none; with one, a missing password counts as empty.
    pub open spec fn basic_auth(self) -> Option<(Seq<char>, Seq<char>)> {
        match self.username {
            Some(user) => Some(
                (
                    user@,
                    match self.password {
                        Some(password) => password@,
                        None => Seq::empty(),
                    },
                ),
            ),
            None => None,
        }
    }

    /// The user name and password to present to the proxy, where any are to
    /// be presented.
    pub fn credentials(&self) -> (res: Option<(&'a str, &'a str)>)
        ensures
            res.deep_view() == self.basic_auth(),
    {
        match self.username {
            Some(user) => {
                let password: &'a str = match self.password {
                    Some(p) => p,
                    None => "",
                };
                proof {
                    reveal_strlit("");
                    assert(""@ =~= Seq::<char>::empty());
                }
                Some((user, password))
            },
            None => None,
        }
    }
}

/// The wiki editions that the client knows by name.
#[derive(Debug, Clone, Copy, PartialEq, Eq, Structural)]
pub enum Lang {
    ID,
    EN,
}

impl Lang {
    /// The language code of an edition.
    pub open spec fn code(self) -> Seq<char> {
        match self {
            Lang::ID => "id"@,
            Lang::EN => "en"@,
        }
    }

    /// The host name that serves an edition.
    pub open spec fn authority(self) -> Seq<char> {
        match self {
            Lang::ID => "id.wikipedia.org"@,
            Lang::EN => "en.wikipedia.org"@,
        }
    }

    /// The edition with language code `code`, where the client knows one.
    pub open spec fn parse(code: Seq<char>) -> Option<Lang> {
        if code == "id"@ {
            Some(Lang::ID)
        } else if code == "en"@ {
            Some(Lang::EN)
        } else {
            None
        }
    }

    /// The edition that a captured language code names; none where nothing
    /// was captured.
    pub open spec fn parse_capture(capture: Option<Seq<char>>) -> Option<Lang> {
        match capture {
            Some(code) => Lang::parse(code),
            None => None,
        }
    }

    /// The host name that serves the edition.
    pub fn get_wiki_authority(&self) -> (res: &'static str)
        ensures
            res@ == self.authority(),
    {
        match self {
            Lang::ID => "id.wikipedia.org",
            Lang::EN => "en.wikipedia.org",
        }
    }

    /// The language code of the edition.
    pub fn to_str(&self) -> (res: &'static str)
        ensures
            res@ == self.code(),
    {
        match self {
            Lang::ID => "id",
            Lang::EN => "en",
        }
    }

    /// The edition with language code `s`, where the client knows one.
    pub fn from_str(s: &str) -> (res: Option<Lang>)
        ensures
            res == Lang::parse(s@),
    {
        if str_eq(s, "id") {
            Some(Lang::ID)
        } else if str_eq(s, "en") {
            Some(Lang::EN)
        } else {
            None
        }
    }

    /// The edition that a URL belongs to: the one whose language code the
    /// pattern `LANG_URL_PATTERN` captures in the URL.
    pub fn from_url(url: &str) -> (res: Option<Lang>)
        ensures
            res == Lang::parse_capture(regex_group_one(LANG_URL_PATTERN@, url@)),
    {
        match regex_first_group(LANG_URL_PATTERN, url) {
            Some(code) => Lang::from_str(code.as_str()),
            None => None,
        }
    }

    /// Every edition is found again by its language code, and its host name
    /// is its language code before the wiki domain.
    pub proof fn lemma_code_round_trip(self)
        ensures
            Lang::parse(self.code()) == Some(self),
            self.authority() == self.code() + crate::async_request::WIKI_DOMAIN@,
    {
        reveal_strlit("id");
        reveal_strlit("en");
        reveal_strlit("id.wikipedia.org");
        reveal_strlit("en.wikipedia.org");
        reveal_strlit(".wikipedia.org");
        assert("id"@[0] != "en"@[0]);
        assert("id.wikipedia.org"@ =~= "id"@ + ".wikipedia.org"@);
        assert("en.wikipedia.org"@ =~= "en"@ + ".wikipedia.org"@);
    }
}

} // verus!
