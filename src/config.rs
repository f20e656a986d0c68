//! Client configuration: API keys, service base URLs and news tuning.
use crate::error::StatbookError;
use crate::models::NewsQuery;
use vstd::prelude::*;
use vstd::string::*;

verus! {

/// Base URL of the statistics service unless configured otherwise.
pub open spec fn default_stats_url() -> Seq<char> {
    "https://api.mysportsfeeds.com/v2.1"@
}

/// Base URL of the news service unless configured otherwise.
pub open spec fn default_news_url() -> Seq<char> {
    "https://newsapi.org/v2"@
}

fn stats_url_default() -> (r: String)
    ensures
        r@ == default_stats_url(),
{
    String::from_str("https://api.mysportsfeeds.com/v2.1")
}

fn news_url_default() -> (r: String)
    ensures
        r@ == default_news_url(),
{
    String::from_str("https://newsapi.org/v2")
}

/// Field a news search is sorted by.
#[derive(Debug, Clone, Copy)]
pub enum SortBy {
    PublishedAt,
    Relevancy,
    Popularity,
}

/// The news service's name for a sort field.
pub open spec fn sort_name(s: SortBy) -> Seq<char> {
    match s {
        SortBy::PublishedAt => "publishedAt"@,
        SortBy::Relevancy => "relevancy"@,
        SortBy::Popularity => "popularity"@,
    }
}

impl SortBy {
    /// The news service's name for this field.
    pub fn to_string(&self) -> (r: String)
        ensures
            r@ == sort_name(*self),
    {
        match self {
            SortBy::PublishedAt => String::from_str("publishedAt"),
            SortBy::Relevancy => String::from_str("relevancy"),
            SortBy::Popularity => String::from_str("popularity"),
        }
    }
}

/// Tuning of news searches.
#[derive(Debug)]
pub struct NewsConfig {
    pub max_articles: u32,
    pub days_back: u32,
    pub sort_by: SortBy,
    pub language: String,
}

impl Default for NewsConfig {
    /// Five articles from the last seven days, newest first, in English.
    fn default() -> (r: NewsConfig)
        ensures
            r.max_articles == 5,
            r.days_back == 7,
            r.sort_by == SortBy::PublishedAt,
            r.language@ == "en"@,
    {
        NewsConfig {
            max_articles: 5,
            days_back: 7,
            sort_by: SortBy::PublishedAt,
            language: String::from_str("en"),
        }
    }
}

impl Clone for NewsConfig {
    fn clone(&self) -> (r: NewsConfig)
        ensures
            r == *self,
    {
        NewsConfig {
            max_articles: self.max_articles,
            days_back: self.days_back,
            sort_by: self.sort_by,
            language: self.language.clone(),
        }
    }
}

impl NewsConfig {
    pub fn new() -> (r: NewsConfig)
        ensures
            r.max_articles == 5,
            r.days_back == 7,
            r.sort_by == SortBy::PublishedAt,
            r.language@ == "en"@,
    {
        NewsConfig::default()
    }

    pub fn with_max_articles(self, max: u32) -> (r: NewsConfig)
        ensures
            r == (NewsConfig { max_articles: max, ..self }),
    {
        NewsConfig { max_articles: max, ..self }
    }

    pub fn with_days_back(self, days: u32) -> (r: NewsConfig)
        ensures
            r == (NewsConfig { days_back: days, ..self }),
    {
        NewsConfig { days_back: days, ..self }
    }

    pub fn with_sort_by(self, sort_by: SortBy) -> (r: NewsConfig)
        ensures
            r == (NewsConfig { sort_by, ..self }),
    {
        NewsConfig { sort_by, ..self }
    }

    pub fn with_language(self, language: String) -> (r: NewsConfig)
        ensures
            r == (NewsConfig { language, ..self }),
    {
        NewsConfig { language, ..self }
    }

    /// A query for `name` that asks for `max_articles` articles sorted by
    /// `sort_by`. The look-back window and language are not sent: a date filter
    /// is refused by the news service's free tier, and the search language is
    /// left to the service.
    pub fn query_for(&self, name: &str) -> (r: NewsQuery)
        ensures
            r.player_name@ == name@,
            r.from_date@ == Seq::<char>::empty(),
            r.page_size == self.max_articles,
            r.sort_by@ == sort_name(self.sort_by),
    {
        NewsQuery {
            player_name: name.to_owned(),
            from_date: String::new(),
            page_size: self.max_articles,
            sort_by: self.sort_by.to_string(),
        }
    }
}

/// Whether `s` names an HTTP(S) location: it begins with `http`.
pub open spec fn is_http_url(s: Seq<char>) -> bool {
    s.len() >= 4 && s.subrange(0, 4) == "http"@
}

/// Relies on `str::starts_with`: whether `p` is a prefix of `s`.
#[verifier::external_body]
fn starts_with(s: &str, p: &str) -> (r: bool)
    ensures
        r == (p@.len() <= s@.len() && s@.subrange(0, p@.len() as int) == p@),
{
    s.starts_with(p)
}

/// The first rule a configuration breaks, as the message reported for it; none
/// when it is valid. Keys only have to be non-empty: their format is left to
/// the services.
pub open spec fn config_problem(
    stats_key: Seq<char>,
    news_key: Seq<char>,
    stats_url: Seq<char>,
    news_url: Seq<char>,
) -> Option<Seq<char>> {
    if stats_key.len() == 0 {
        Some("Stats API key cannot be empty"@)
    } else if news_key.len() == 0 {
        Some("News API key cannot be empty"@)
    } else if !is_http_url(stats_url) {
        Some("Stats base URL must be a valid HTTP URL"@)
    } else if !is_http_url(news_url) {
        Some("News base URL must be a valid HTTP URL"@)
    } else {
        None
    }
}

/// Credentials and endpoints of both services.
#[derive(Debug)]
pub struct StatbookConfig {
    pub stats_api_key: String,
    pub news_api_key: String,
    pub stats_base_url: String,
    pub news_base_url: String,
    pub news_config: NewsConfig,
}

impl Clone for StatbookConfig {
    fn clone(&self) -> (r: StatbookConfig)
        ensures
            r == *self,
    {
        StatbookConfig {
            stats_api_key: self.stats_api_key.clone(),
            news_api_key: self.news_api_key.clone(),
            stats_base_url: self.stats_base_url.clone(),
            news_base_url: self.news_base_url.clone(),
            news_config: self.news_config.clone(),
        }
    }
}

impl StatbookConfig {
    /// The rule this configuration breaks, if any.
    pub open spec fn problem(&self) -> Option<Seq<char>> {
        config_problem(
            self.stats_api_key@,
            self.news_api_key@,
            self.stats_base_url@,
            self.news_base_url@,
        )
    }

    /// A configuration with the given keys, the default endpoints and default
    /// news tuning. It is not validated.
    pub fn new(stats_api_key: String, news_api_key: String) -> (r: StatbookConfig)
        ensures
            r.stats_api_key == stats_api_key,
            r.news_api_key == news_api_key,
            r.stats_base_url@ == default_stats_url(),
            r.news_base_url@ == default_news_url(),
            r.news_config.max_articles == 5,
            r.news_config.days_back == 7,
            r.news_config.sort_by == SortBy::PublishedAt,
            r.news_config.language@ == "en"@,
    {
        StatbookConfig {
            stats_api_key,
            news_api_key,
            stats_base_url: stats_url_default(),
            news_base_url: news_url_default(),
            news_config: NewsConfig::default(),
        }
    }

    fn validate_api_keys(&self) -> (r: Result<(), StatbookError>)
        ensures
            self.stats_api_key@.len() == 0 ==> r is Err && r->Err_0.is_validation(
                "Stats API key cannot be empty"@,
            ),
            self.stats_api_key@.len() > 0 && self.news_api_key@.len() == 0 ==> r is Err
                && r->Err_0.is_validation("News API key cannot be empty"@),
            self.stats_api_key@.len() > 0 && self.news_api_key@.len() > 0 ==> r is Ok,
    {
        if self.stats_api_key.as_str().is_empty() {
            return Err(StatbookError::Validation(String::from_str("Stats API key cannot be empty")));
        }
        if self.news_api_key.as_str().is_empty() {
            return Err(StatbookError::Validation(String::from_str("News API key cannot be empty")));
        }
        Ok(())
    }

    fn validate_urls(&self) -> (r: Result<(), StatbookError>)
        ensures
            !is_http_url(self.stats_base_url@) ==> r is Err && r->Err_0.is_validation(
                "Stats base URL must be a valid HTTP URL"@,
            ),
            is_http_url(self.stats_base_url@) && !is_http_url(self.news_base_url@) ==> r is Err
                && r->Err_0.is_validation("News base URL must be a valid HTTP URL"@),
            is_http_url(self.stats_base_url@) && is_http_url(self.news_base_url@) ==> r is Ok,
    {
        proof {
            reveal_strlit("http");
        }
        if !starts_with(self.stats_base_url.as_str(), "http") {
            return Err(
                StatbookError::Validation(String::from_str("Stats base URL must be a valid HTTP URL")),
            );
        }
        if !starts_with(self.news_base_url.as_str(), "http") {
            return Err(
                StatbookError::Validation(String::from_str("News base URL must be a valid HTTP URL")),
            );
        }
        Ok(())
    }

    /// Checks the keys (non-empty) and the base URLs (beginning with `http`), in
    /// that order, and reports the first rule broken.
    pub fn validate(&self) -> (r: Result<(), StatbookError>)
        ensures
            self.problem() is None ==> r is Ok,
            self.problem() is Some ==> r is Err && r->Err_0.is_validation(self.problem()->0),
    {
        self.validate_api_keys()?;
        self.validate_urls()?;
        Ok(())
    }

    /// The same configuration with other news tuning.
    pub fn with_news_config(self, news_config: NewsConfig) -> (r: StatbookConfig)
        ensures
            r == (StatbookConfig { news_config, ..self }),
    {
        StatbookConfig { news_config, ..self }
    }

    /// A builder with nothing set.
    pub fn builder() -> (r: StatbookConfigBuilder)
        ensures
            r@ == BuilderView::empty(),
    {
        StatbookConfigBuilder::default()
    }
}

/// What a [`StatbookConfigBuilder`] has been given so far.
pub struct BuilderView {
    pub stats_api_key: Option<Seq<char>>,
    pub news_api_key: Option<Seq<char>>,
    pub stats_base_url: Option<Seq<char>>,
    pub news_base_url: Option<Seq<char>>,
    pub news_config: Option<NewsConfig>,
}

impl BuilderView {
    pub open spec fn empty() -> BuilderView {
        BuilderView {
            stats_api_key: None,
            news_api_key: None,
            stats_base_url: None,
            news_base_url: None,
            news_config: None,
        }
    }
}

/// Builds a validated [`StatbookConfig`]; both keys are required, the endpoints
/// and the news tuning default.
#[derive(Debug)]
pub struct StatbookConfigBuilder {
    stats_api_key: Option<String>,
    news_api_key: Option<String>,
    stats_base_url: Option<String>,
    news_base_url: Option<String>,
    news_config: Option<NewsConfig>,
}

impl View for StatbookConfigBuilder {
    type V = BuilderView;

    closed spec fn view(&self) -> BuilderView {
        BuilderView {
            stats_api_key: match self.stats_api_key {
                Some(s) => Some(s@),
                None => None,
            },
            news_api_key: match self.news_api_key {
                Some(s) => Some(s@),
                None => None,
            },
            stats_base_url: match self.stats_base_url {
                Some(s) => Some(s@),
                None => None,
            },
            news_base_url: match self.news_base_url {
                Some(s) => Some(s@),
                None => None,
            },
            news_config: self.news_config,
        }
    }
}

impl Default for StatbookConfigBuilder {
    fn default() -> (r: StatbookConfigBuilder)
        ensures
            r@ == BuilderView::empty(),
    {
        StatbookConfigBuilder {
            stats_api_key: None,
            news_api_key: None,
            stats_base_url: None,
            news_base_url: None,
            news_config: None,
        }
    }
}

/// The text of an optional setting, or `default` when it is unset.
pub open spec fn or_default(v: Option<Seq<char>>, default: Seq<char>) -> Seq<char> {
    match v {
        Some(s) => s,
        None => default,
    }
}

impl StatbookConfigBuilder {
    pub fn stats_api_key(self, stats_api_key: &str) -> (r: StatbookConfigBuilder)
        ensures
            r@ == (BuilderView { stats_api_key: Some(stats_api_key@), ..self@ }),
    {
        StatbookConfigBuilder { stats_api_key: Some(stats_api_key.to_owned()), ..self }
    }

    pub fn news_api_key(self, news_api_key: &str) -> (r: StatbookConfigBuilder)
        ensures
            r@ == (BuilderView { news_api_key: Some(news_api_key@), ..self@ }),
    {
        StatbookConfigBuilder { news_api_key: Some(news_api_key.to_owned()), ..self }
    }

    pub fn stats_base_url(self, stats_base_url: &str) -> (r: StatbookConfigBuilder)
        ensures
            r@ == (BuilderView { stats_base_url: Some(stats_base_url@), ..self@ }),
    {
        StatbookConfigBuilder { stats_base_url: Some(stats_base_url.to_owned()), ..self }
    }

    pub fn news_base_url(self, news_base_url: &str) -> (r: StatbookConfigBuilder)
        ensures
            r@ == (BuilderView { news_base_url: Some(news_base_url@), ..self@ }),
    {
        StatbookConfigBuilder { news_base_url: Some(news_base_url.to_owned()), ..self }
    }

    pub fn news_config(self, news_config: NewsConfig) -> (r: StatbookConfigBuilder)
        ensures
            r@ == (BuilderView { news_config: Some(news_config), ..self@ }),
    {
        StatbookConfigBuilder { news_config: Some(news_config), ..self }
    }

    /// The configuration set so far, validated. A missing key is reported
    /// before any validation; unset endpoints and tuning take their defaults.
    pub fn build(self) -> (r: Result<StatbookConfig, StatbookError>)
        ensures
            self@.stats_api_key is None ==> r is Err && r->Err_0.is_missing_key("stats_api_key"@),
            self@.stats_api_key is Some && self@.news_api_key is None ==> r is Err
                && r->Err_0.is_missing_key("news_api_key"@),
            self@.stats_api_key is Some && self@.news_api_key is Some ==> {
                let sk = self@.stats_api_key->0;
                let nk = self@.news_api_key->0;
                let su = or_default(self@.stats_base_url, default_stats_url());
                let nu = or_default(self@.news_base_url, default_news_url());
                match config_problem(sk, nk, su, nu) {
                    None => r matches Ok(c) && c.stats_api_key@ == sk && c.news_api_key@ == nk
                        && c.stats_base_url@ == su && c.news_base_url@ == nu && (match self@.news_config {
                        Some(n) => c.news_config == n,
                        None => c.news_config.max_articles == 5 && c.news_config.days_back == 7
                            && c.news_config.sort_by == SortBy::PublishedAt
                            && c.news_config.language@ == "en"@,
                    }),
                    Some(p) => r is Err && r->Err_0.is_validation(p),
                }
            },
    {
        let stats_api_key = match self.stats_api_key {
            Some(k) => k,
            None => {
                return Err(StatbookError::MissingApiKey { key: String::from_str("stats_api_key") });
            },
        };
        let news_api_key = match self.news_api_key {
            Some(k) => k,
            None => {
                return Err(StatbookError::MissingApiKey { key: String::from_str("news_api_key") });
            },
        };
        let stats_base_url = match self.stats_base_url {
            Some(u) => u,
            None => stats_url_default(),
        };
        let news_base_url = match self.news_base_url {
            Some(u) => u,
            None => news_url_default(),
        };
        let news_config = match self.news_config {
            Some(n) => n,
            None => NewsConfig::default(),
        };
        let config = StatbookConfig {
            stats_api_key,
            news_api_key,
            stats_base_url,
            news_base_url,
            news_config,
        };
        config.validate()?;
        Ok(config)
    }
}

/// With the default endpoints, a configuration is valid exactly when both keys
/// are non-empty, whatever their length.
pub proof fn lemma_keys_decide_validity(stats_key: Seq<char>, news_key: Seq<char>)
    ensures
        config_problem(stats_key, news_key, default_stats_url(), default_news_url()) is None <==> (
        stats_key.len() > 0 && news_key.len() > 0),
{
    reveal_strlit("https://api.mysportsfeeds.com/v2.1");
    reveal_strlit("https://newsapi.org/v2");
    reveal_strlit("http");
    assert(default_stats_url().subrange(0, 4) =~= "http"@);
    assert(default_news_url().subrange(0, 4) =~= "http"@);
}

} // verus!
