//! Requests to, and responses from, the statistics and news services.
//!
//! The caller sends each [`HttpRequest`] as an HTTP GET and hands back the status
//! and body it received.
use crate::config::StatbookConfig;
use crate::decode::{articles_from_body, news_document, reports_articles, reports_stats, stats_document, stats_from_body};
use crate::error::StatbookError;
use crate::json::parse_model;
use crate::models::{Article, NewsQuery, PlayerStats};
use crate::text::{decimal, decimal_of};
use base64::Engine;
use vstd::prelude::*;
use vstd::string::*;

verus! {

/// A GET request: its URL, its query parameters (to be URL-encoded by the
/// sender) and its headers, in order.
#[derive(Debug)]
pub struct HttpRequest {
    pub url: String,
    pub query: Vec<(String, String)>,
    pub headers: Vec<(String, String)>,
}

/// The texts of a list of name/value pairs.
pub open spec fn pairs_view(v: Seq<(String, String)>) -> Seq<(Seq<char>, Seq<char>)> {
    v.map_values(|p: (String, String)| (p.0@, p.1@))
}

fn pair(name: &str, value: &str) -> (r: (String, String))
    ensures
        r.0@ == name@,
        r.1@ == value@,
{
    (name.to_owned(), value.to_owned())
}

/// Whether an HTTP status reports success (2xx).
pub open spec fn is_success(status: u16) -> bool {
    200 <= status <= 299
}

/// The password the statistics service expects beside an API key. It is fixed
/// by the service, not chosen by the user.
pub open spec fn stats_password() -> Seq<char> {
    "MYSPORTSFEEDS"@
}

/// What the standard base64 engine of the `base64` crate gives for the UTF-8
/// bytes of `text`.
pub uninterp spec fn base64_of(text: Seq<char>) -> Seq<char>;

/// Relies on `base64::engine::general_purpose::STANDARD.encode`: the padded
/// standard base64 text of the UTF-8 bytes of `text`.
#[verifier::external_body]
fn encode_base64(text: &str) -> (r: String)
    ensures
        r@ == base64_of(text@),
{
    base64::engine::general_purpose::STANDARD.encode(text)
}

/// `"{api_key}:{password}"`, the credentials of a statistics request before
/// encoding.
pub fn stats_credentials(api_key: &str) -> (r: String)
    ensures
        r@ == api_key@ + ":"@ + stats_password(),
{
    let mut out = api_key.to_owned();
    out.append(":");
    out.append("MYSPORTSFEEDS");
    out
}

/// The `Authorization` value for already encoded credentials.
pub fn basic_auth_value(encoded: &str) -> (r: String)
    ensures
        r@ == "Basic "@ + encoded@,
{
    let mut out = String::from_str("Basic ");
    out.append(encoded);
    out
}

/// The `Authorization` value of a statistics request: HTTP Basic with the API
/// key and the service's fixed password.
pub fn stats_auth_header(api_key: &str) -> (r: String)
    ensures
        r@ == "Basic "@ + base64_of(api_key@ + ":"@ + stats_password()),
{
    let credentials = stats_credentials(api_key);
    let encoded = encode_base64(credentials.as_str());
    basic_auth_value(encoded.as_str())
}

/// The statistics endpoint for a season (`latest` is the current one).
pub open spec fn stats_url(base: Seq<char>, season: Seq<char>) -> Seq<char> {
    base + "/pull/nfl/"@ + season + "/player_stats_totals.json"@
}

/// The request for the statistics of the player `name` over `season`.
pub fn stats_request(config: &StatbookConfig, name: &str, season: &str) -> (r: HttpRequest)
    ensures
        r.url@ == stats_url(config.stats_base_url@, season@),
        pairs_view(r.query@) == seq![("player"@, name@)],
        pairs_view(r.headers@) == seq![
            ("Authorization"@, "Basic "@ + base64_of(config.stats_api_key@ + ":"@ + stats_password())),
        ],
{
    let mut url = config.stats_base_url.clone();
    url.append("/pull/nfl/");
    url.append(season);
    url.append("/player_stats_totals.json");
    let auth = stats_auth_header(config.stats_api_key.as_str());
    let query = vec![pair("player", name)];
    let headers = vec![pair("Authorization", auth.as_str())];
    proof {
        assert(pairs_view(query@) =~= seq![("player"@, name@)]);
        assert(pairs_view(headers@) =~= seq![("Authorization"@, auth@)]);
    }
    HttpRequest { url, query, headers }
}

/// The message of a failed statistics request for `name`.
pub open spec fn stats_failure_message(name: Seq<char>) -> Seq<char> {
    "Failed to fetch player stats for '"@ + name + "'"@
}

/// The outcome of a statistics request for `name` over `season`, from the status
/// and body of its response: a non-success status is a service error carrying
/// that status; otherwise the body is decoded.
pub fn stats_response(name: &str, season: &str, status: u16, body: &str) -> (r: Result<
    PlayerStats,
    StatbookError,
>)
    ensures
        !is_success(status) ==> r is Err && r->Err_0.is_stats_api(
            status,
            stats_failure_message(name@),
        ),
        is_success(status) ==> match parse_model(body@) {
            None => r is Err && r->Err_0 is JsonParse,
            Some(doc) => reports_stats(r, stats_document(doc, season@), name@),
        },
{
    if status < 200 || status > 299 {
        let mut message = String::from_str("Failed to fetch player stats for '");
        message.append(name);
        message.append("'");
        return Err(StatbookError::StatsApi { status, message });
    }
    stats_from_body(body, name, season)
}

/// The query parameters of a news search: `from` only when a start date is set,
/// since the free tier of the service refuses date filters.
pub open spec fn news_params(q: NewsQuery, api_key: Seq<char>) -> Seq<(Seq<char>, Seq<char>)> {
    let base = seq![
        ("q"@, q.player_name@),
        ("pageSize"@, decimal_of(q.page_size as int)),
        ("sortBy"@, q.sort_by@),
        ("apiKey"@, api_key),
    ];
    if q.from_date@.len() == 0 {
        base
    } else {
        base.push(("from"@, q.from_date@))
    }
}

/// The header identifying this client to the news service.
pub open spec fn news_user_agent() -> Seq<char> {
    "FantasyFootballApp/1.0"@
}

/// The request for a news search.
pub fn news_request(config: &StatbookConfig, query: &NewsQuery) -> (r: HttpRequest)
    ensures
        r.url@ == config.news_base_url@ + "/everything"@,
        pairs_view(r.query@) == news_params(*query, config.news_api_key@),
        pairs_view(r.headers@) == seq![("User-Agent"@, news_user_agent())],
{
    let mut url = config.news_base_url.clone();
    url.append("/everything");
    let page_size = decimal(query.page_size as i64);
    let mut params = vec![
        pair("q", query.player_name.as_str()),
        pair("pageSize", page_size.as_str()),
        pair("sortBy", query.sort_by.as_str()),
        pair("apiKey", config.news_api_key.as_str()),
    ];
    let ghost base = pairs_view(params@);
    proof {
        assert(base =~= seq![
            ("q"@, query.player_name@),
            ("pageSize"@, decimal_of(query.page_size as int)),
            ("sortBy"@, query.sort_by@),
            ("apiKey"@, config.news_api_key@),
        ]);
    }
    if !query.from_date.as_str().is_empty() {
        params.push(pair("from", query.from_date.as_str()));
        proof {
            assert(pairs_view(params@) =~= base.push(("from"@, query.from_date@)));
        }
    }
    let headers = vec![pair("User-Agent", "FantasyFootballApp/1.0")];
    proof {
        assert(pairs_view(headers@) =~= seq![("User-Agent"@, news_user_agent())]);
    }
    HttpRequest { url, query: params, headers }
}

/// The message of a failed news search for `name`.
pub open spec fn news_failure_message(name: Seq<char>) -> Seq<char> {
    "Failed to fetch news for '"@ + name + "'"@
}

/// The outcome of a news search, from the status and body of its response: a
/// non-success status is a service error carrying that status; otherwise the
/// articles of the body, in order (possibly none).
pub fn news_response(query: &NewsQuery, status: u16, body: &str) -> (r: Result<
    Vec<Article>,
    StatbookError,
>)
    ensures
        !is_success(status) ==> r is Err && r->Err_0.is_news_api(
            status,
            news_failure_message(query.player_name@),
        ),
        is_success(status) ==> match parse_model(body@) {
            None => r is Err && r->Err_0 is JsonParse,
            Some(doc) => reports_articles(r, news_document(doc)),
        },
{
    if status < 200 || status > 299 {
        let mut message = String::from_str("Failed to fetch news for '");
        message.append(query.player_name.as_str());
        message.append("'");
        return Err(StatbookError::NewsApi { status, message });
    }
    articles_from_body(body)
}

} // verus!
