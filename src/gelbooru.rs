//! The Gelbooru client: its builder, the requests it makes, and the post
//! records that a search returns.

use vstd::prelude::*;

use crate::query::{
    base_query, decimal, decimal_string, has_param, join_tags, search_query, search_target, tag_texts,
};

verus! {

/// An HTTP client of reqwest, which the Gelbooru client sends its requests through.
#[verifier::external_type_specification]
#[verifier::external_body]
pub struct ExClient(reqwest::Client);

/// A request of reqwest that is being put together.
#[verifier::external_type_specification]
#[verifier::external_body]
pub struct ExRequestBuilder(reqwest::RequestBuilder);

/// A JSON value of serde_json, kept as it came.
#[verifier::external_type_specification]
#[verifier::external_body]
pub struct ExJsonValue(serde_json::Value);

/// Relies on reqwest::Client::new: a client with the default settings.
/// It panics where the machine offers no TLS backend or resolver
/// configuration, which no argument decides.
#[verifier::external_body]
fn default_client() -> reqwest::Client {
    reqwest::Client::new()
}

/// The credentials a built client holds: both parts, or none.
pub open spec fn built_credentials(key: Option<Seq<char>>, account: Option<usize>) -> Option<
    (Seq<char>, usize),
> {
    match (key, account) {
        (Some(k), Some(u)) => Some((k, u)),
        _ => None,
    }
}

/// A query parameter made of a name and a value.
fn param(name: &str, value: String) -> (r: (String, String))
    ensures
        r.0@ == name@,
        r.1@ == value@,
{
    (String::from_str(name), value)
}

/// A client for [Gelbooru](https://gelbooru.com).
pub struct Gelbooru {
    http_client: reqwest::Client,
    auth: Option<(String, usize)>,
}

impl Gelbooru {
    /// The API key and account id that the client sends, if any.
    pub closed spec fn credentials(&self) -> Option<(Seq<char>, usize)> {
        match self.auth {
            Some((key, user_id)) => Some((key@, user_id)),
            None => None,
        }
    }

    /// The HTTP client that requests go through.
    pub closed spec fn transport(&self) -> reqwest::Client {
        self.http_client
    }

    /// Creates a new builder to construct the client instance.
    pub fn builder() -> (r: GelbooruBuilder)
        ensures
            r.key() is None,
            r.account() is None,
            r.transport() is None,
    {
        GelbooruBuilder::default()
    }

    /// The parameters that select the API's `api_page` in the JSON format,
    /// followed by the credentials, where the client has them.
    fn base_query_params(&self, api_page: &str) -> (r: Vec<(String, String)>)
        ensures
            r.deep_view() == base_query(api_page@, self.credentials()),
    {
        let mut r: Vec<(String, String)> = Vec::new();
        r.push(param("page", String::from_str(api_page)));
        r.push(param("s", String::from_str("post")));
        r.push(param("q", String::from_str("index")));
        r.push(param("json", String::from_str("1")));
        match &self.auth {
            Some((key, user_id)) => {
                r.push(param("api_key", key.clone()));
                r.push(param("user_id", decimal_string(*user_id)));
            },
            None => {},
        }
        assert(r.deep_view() =~= base_query(api_page@, self.credentials()));
        r
    }

    /// The query parameters of a search for page `page` (counted from zero)
    /// of `limit` posts, in the order they are sent.
    pub fn query_params(&self, page: usize, limit: usize) -> (r: Vec<(String, String)>)
        ensures
            r.deep_view() == search_query(self.credentials(), page, limit),
    {
        let mut r = self.base_query_params("dapi");
        r.push(param("pid", decimal_string(page)));
        r.push(param("limit", decimal_string(limit)));
        assert(r.deep_view() =~= search_query(self.credentials(), page, limit));
        r
    }

    /// The target of a search: the tag filters are joined with `+` and put
    /// into the URL as they are, since the API does not read compound
    /// filters such as `id:>=0` back from their escaped form.
    pub fn search_url(&self, tags: &[&str]) -> (r: String)
        ensures
            r@ == search_target(tag_texts(tags@)),
    {
        let mut url = String::from_str("https://gelbooru.com/index.php?tags=");
        let joined = join_tags(tags);
        url.append(joined.as_str());
        url
    }

    /// The HTTP client that every request of this client goes through.
    pub fn http_client(&self) -> (r: &reqwest::Client)
        ensures
            *r == self.transport(),
    {
        &self.http_client
    }

    /// The GET request of a search, as plain values: its target, with the
    /// tag filters joined into it, and the query parameters to append to
    /// that target, in order. It is sent through `http_client`.
    pub fn search_request(&self, tags: &[&str], page: usize, limit: usize) -> (r: (
        String,
        Vec<(String, String)>,
    ))
        ensures
            r.0@ == search_target(tag_texts(tags@)),
            r.1.deep_view() == search_query(self.credentials(), page, limit),
    {
        (self.search_url(tags), self.query_params(page, limit))
    }
}

/// A builder used to create instances of a [`Gelbooru`](crate::gelbooru::Gelbooru).
#[derive(Debug, Clone)]
pub struct GelbooruBuilder {
    http_client: Option<reqwest::Client>,
    api_key: Option<String>,
    user_id: Option<usize>,
}

impl GelbooruBuilder {
    /// The API key set so far.
    pub closed spec fn key(&self) -> Option<Seq<char>> {
        match self.api_key {
            Some(k) => Some(k@),
            None => None,
        }
    }

    /// The account id set so far.
    pub closed spec fn account(&self) -> Option<usize> {
        self.user_id
    }

    /// The HTTP client set so far.
    pub closed spec fn transport(&self) -> Option<reqwest::Client> {
        self.http_client
    }

    /// Sets the HTTP client that will be used to make requests to gelbooru,
    /// useful if you want to use a proxy.
    pub fn http_client(self, http_client: reqwest::Client) -> (r: Self)
        ensures
            r.transport() == Some(http_client),
            r.key() == self.key(),
            r.account() == self.account(),
    {
        GelbooruBuilder { http_client: Some(http_client), ..self }
    }

    /// Sets the authentication for gelbooru to use for any special queries.
    pub fn auth(self, api_key: &str, user_id: usize) -> (r: Self)
        ensures
            r.transport() == self.transport(),
            r.key() == Some(api_key@),
            r.account() == Some(user_id),
    {
        GelbooruBuilder {
            api_key: Some(String::from_str(api_key)),
            user_id: Some(user_id),
            ..self
        }
    }

    /// Makes the client. Without both an API key and an account id it is
    /// anonymous; without an HTTP client of the caller's it makes its own.
    pub fn build(self) -> (r: Gelbooru)
        ensures
            r.credentials() == built_credentials(self.key(), self.account()),
            self.transport() is Some ==> r.transport() == self.transport()->Some_0,
    {
        let auth = match (self.api_key, self.user_id) {
            (Some(key), Some(user_id)) => Some((key, user_id)),
            _ => None,
        };
        let http_client = match self.http_client {
            Some(client) => client,
            None => default_client(),
        };
        Gelbooru { http_client, auth }
    }
}

impl Default for GelbooruBuilder {
    fn default() -> (r: Self)
        ensures
            r.key() is None,
            r.account() is None,
            r.transport() is None,
    {
        GelbooruBuilder { http_client: None, api_key: None, user_id: None }
    }
}

/// A client built from a builder that holds only one of the API key and
/// the account id is anonymous: it sends the same query as a client built
/// without credentials, for every page of the API, page index and limit.
pub proof fn lemma_partial_auth_is_anonymous(
    b: GelbooruBuilder,
    api_page: Seq<char>,
    page: usize,
    limit: usize,
)
    requires
        b.key() is None || b.account() is None,
    ensures
        built_credentials(b.key(), b.account()) is None,
        base_query(api_page, built_credentials(b.key(), b.account())) == base_query(
            api_page,
            None,
        ),
        search_query(built_credentials(b.key(), b.account()), page, limit) == search_query(
            None,
            page,
            limit,
        ),
{
}

/// The query of a client without credentials holds no `api_key` and no
/// `user_id` parameter, whatever the page of the API, the page index and
/// the limit; its base query is the four parameters that select the API.
pub proof fn lemma_anonymous_query_has_no_credentials(api_page: Seq<char>, page: usize, limit: usize)
    ensures
        base_query(api_page, None) == seq![
            ("page"@, api_page),
            ("s"@, "post"@),
            ("q"@, "index"@),
            ("json"@, "1"@),
        ],
        !has_param(base_query(api_page, None), "api_key"@),
        !has_param(base_query(api_page, None), "user_id"@),
        !has_param(search_query(None, page, limit), "api_key"@),
        !has_param(search_query(None, page, limit), "user_id"@),
{
    let q = search_query(None, page, limit);
    let bq = base_query(api_page, None);
    assert(bq =~= seq![("page"@, api_page), ("s"@, "post"@), ("q"@, "index"@), ("json"@, "1"@)]);
    reveal_strlit("api_key");
    reveal_strlit("user_id");
    reveal_strlit("page");
    reveal_strlit("s");
    reveal_strlit("q");
    reveal_strlit("json");
    reveal_strlit("pid");
    reveal_strlit("limit");
    assert(q.len() == 6);
    assert forall|i: int| 0 <= i < q.len() implies q[i].0 != "api_key"@ && q[i].0
        != "user_id"@ by {
        assert(q[i].0.len() != 7 || q[i].0[0] != 'a' && q[i].0[0] != 'u');
    }
    assert forall|i: int| 0 <= i < bq.len() implies bq[i].0 != "api_key"@ && bq[i].0
        != "user_id"@ by {
        assert(bq[i].0.len() != 7 || bq[i].0[0] != 'a' && bq[i].0[0] != 'u');
    }
}

/// The query of a client with credentials carries the API key and the
/// decimal account id, right after the parameters that select the API.
pub proof fn lemma_credentials_are_sent(key: Seq<char>, user_id: usize, page: usize, limit: usize)
    ensures
        search_query(Some((key, user_id)), page, limit)[4] == ("api_key"@, key),
        search_query(Some((key, user_id)), page, limit)[5] == ("user_id"@, decimal(
            user_id as nat,
        )),
{
}

/// The content rating of a post.
#[derive(Debug, Clone, Copy, PartialEq, Eq, Structural)]
pub enum GelbooruRating {
    Explicit,
    Questionable,
    Safe,
}

/// The one-letter code of a rating in the API's JSON.
pub open spec fn rating_code(r: GelbooruRating) -> Seq<char> {
    match r {
        GelbooruRating::Explicit => seq!['e'],
        GelbooruRating::Questionable => seq!['q'],
        GelbooruRating::Safe => seq!['s'],
    }
}

/// The rating that a code names, if it names one.
pub open spec fn rating_of_code(code: Seq<char>) -> Option<GelbooruRating> {
    if code.len() != 1 {
        None
    } else if code[0] == 'e' {
        Some(GelbooruRating::Explicit)
    } else if code[0] == 'q' {
        Some(GelbooruRating::Questionable)
    } else if code[0] == 's' {
        Some(GelbooruRating::Safe)
    } else {
        None
    }
}

impl GelbooruRating {
    /// The rating that `code` names; `None` for any code but `e`, `q` and `s`.
    pub fn from_code(code: &str) -> (r: Option<GelbooruRating>)
        ensures
            r == rating_of_code(code@),
    {
        if code.unicode_len() != 1 {
            return None;
        }
        let c = code.get_char(0);
        assert(code@ =~= seq![c]);
        if c == 'e' {
            Some(GelbooruRating::Explicit)
        } else if c == 'q' {
            Some(GelbooruRating::Questionable)
        } else if c == 's' {
            Some(GelbooruRating::Safe)
        } else {
            None
        }
    }

    /// The code of the rating in the API's JSON.
    pub fn code(&self) -> (r: &'static str)
        ensures
            r@ == rating_code(*self),
    {
        proof {
            reveal_strlit("e");
            reveal_strlit("q");
            reveal_strlit("s");
        }
        match self {
            GelbooruRating::Explicit => "e",
            GelbooruRating::Questionable => "q",
            GelbooruRating::Safe => "s",
        }
    }
}

/// Every rating reads back from its code, and only the three codes name a
/// rating.
pub proof fn lemma_rating_code_round_trip(r: GelbooruRating, code: Seq<char>)
    ensures
        rating_of_code(rating_code(r)) == Some(r),
        rating_of_code(code) is Some ==> rating_code(rating_of_code(code)->Some_0) == code,
{
    if rating_of_code(code) is Some {
        assert(rating_code(rating_of_code(code)->Some_0) =~= code);
    }
}

/// Representation of a Gelbooru post.
#[derive(Debug, Clone)]
pub struct GelbooruPost {
    pub source: String,
    pub directory: String,
    pub hash: String,
    pub height: i64,
    pub id: Option<i64>,
    pub image: String,
    pub change: i64,
    pub owner: String,
    pub parent_id: Option<serde_json::Value>,
    pub rating: GelbooruRating,
    pub sample: i64,
    pub sample_height: i64,
    pub sample_width: i64,
    pub score: i64,
    pub tags: String,
    pub width: i64,
    pub file_url: String,
    pub created_at: String,
}

} // verus!
