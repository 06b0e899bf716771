//! The remote service's endpoint configuration, and the URLs built from it.

use vstd::prelude::*;
use crate::trello::trello_error::TrelloError;

verus! {

/// Whether the base URL, with these query pairs appended, parses.
pub uninterp spec fn url_ok(base: Seq<char>, params: Seq<(Seq<char>, Seq<char>)>) -> bool;

/// The text of the URL built from the base and the query pairs.
pub uninterp spec fn parsed_url(base: Seq<char>, params: Seq<(Seq<char>, Seq<char>)>) -> Seq<
    char,
>;

/// Relies on `url::Url::parse_with_params`: parsing the base and appending
/// the query pairs depends on those inputs alone.  The error text is the
/// url crate's own message.
#[verifier::external_body]
fn build_url(base: &str, params: &Vec<(String, String)>) -> (r: Result<String, String>)
    ensures
        r is Ok <==> url_ok(base@, params.deep_view()),
        r matches Ok(u) ==> u@ == parsed_url(base@, params.deep_view()),
{
    match url::Url::parse_with_params(base, params.iter().map(|p| (p.0.as_str(), p.1.as_str()))) {
        Ok(u) => Ok(u.to_string()),
        Err(e) => Err(format!("{}", e)),
    }
}

/// The host and the credentials every request carries.
#[derive(Debug, PartialEq, Eq)]
pub struct ClientConfig {
    pub host: String,
    pub token: String,
    pub key: String,
}

impl Clone for ClientConfig {
    fn clone(&self) -> (r: Self)
        ensures
            r.host@ == self.host@,
            r.token@ == self.token@,
            r.key@ == self.key@,
    {
        ClientConfig {
            host: self.host.clone(),
            token: self.token.clone(),
            key: self.key.clone(),
        }
    }
}

impl ClientConfig {
    pub fn new(host: &str, token: &str, key: &str) -> (r: Self)
        ensures
            r.host@ == host@,
            r.token@ == token@,
            r.key@ == key@,
    {
        ClientConfig { host: host.to_owned(), token: token.to_owned(), key: key.to_owned() }
    }

    /// The remote service's default host.
    pub fn default_host() -> (r: String)
        ensures
            r@ == "https://api.trello.com"@,
    {
        String::from_str("https://api.trello.com")
    }

    /// The full query: the credentials first, then the caller's parameters.
    pub open spec fn url_params(&self, params: Seq<(Seq<char>, Seq<char>)>) -> Seq<
        (Seq<char>, Seq<char>),
    > {
        seq![("key"@, self.key@), ("token"@, self.token@)] + params
    }

    /// The URL for a request: the host, the path, then the credentials and
    /// the given parameters as the query.
    pub fn get_trello_url(&self, path: &str, params: &Vec<(String, String)>) -> (r: Result<
        String,
        TrelloError,
    >)
        ensures
            r is Ok <==> url_ok(self.host@ + path@, self.url_params(params.deep_view())),
            r matches Ok(u) ==> u@ == parsed_url(
                self.host@ + path@,
                self.url_params(params.deep_view()),
            ),
            r matches Err(e) ==> e is UrlParse,
    {
        let mut base = self.host.clone();
        base.append(path);
        let mut all: Vec<(String, String)> = Vec::new();
        all.push((String::from_str("key"), self.key.clone()));
        all.push((String::from_str("token"), self.token.clone()));
        proof {
            assert(all.deep_view() =~= seq![("key"@, self.key@), ("token"@, self.token@)]);
        }
        let mut i: usize = 0;
        while i < params.len()
            invariant
                i <= params.len(),
                all.deep_view() == seq![("key"@, self.key@), ("token"@, self.token@)]
                    + params.deep_view().subrange(0, i as int),
            decreases params.len() - i,
        {
            let pair = &params[i];
            let ghost old_all = all.deep_view();
            all.push((pair.0.clone(), pair.1.clone()));
            proof {
                assert(params.deep_view()[i as int] == (params@[i as int].0@, params@[
                    i as int].1@));
                assert(all.deep_view() =~= old_all.push(params.deep_view()[i as int]));
                assert(params.deep_view().subrange(0, i + 1) =~= params.deep_view().subrange(
                    0,
                    i as int,
                ).push(params.deep_view()[i as int]));
            }
            i = i + 1;
        }
        proof {
            assert(params.deep_view().subrange(0, params.len() as int) =~= params.deep_view());
            assert(all.deep_view() =~= self.url_params(params.deep_view()));
        }
        match build_url(base.as_str(), &all) {
            Ok(u) => Ok(u),
            Err(e) => Err(TrelloError::UrlParse(e)),
        }
    }
}

} // verus!
