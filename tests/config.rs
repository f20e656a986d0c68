use statbook::{NewsConfig, SortBy, StatbookConfig, StatbookError};

#[test]
fn test_consistent_validation() {
    // Empty stats key should fail
    let result = StatbookConfig::builder()
        .stats_api_key("")
        .news_api_key("any-key")
        .build();
    assert!(result.is_err());

    // Empty news key should fail
    let result = StatbookConfig::builder()
        .stats_api_key("any-key")
        .news_api_key("")
        .build();
    assert!(result.is_err());

    // Short keys pass validation
    let result = StatbookConfig::builder()
        .stats_api_key("short")
        .news_api_key("also-short")
        .build();
    assert!(
        result.is_ok(),
        "Short keys should pass validation - APIs will validate format"
    );

    // Different length keys both pass
    let result = StatbookConfig::builder()
        .stats_api_key("a-20-character-key-x")
        .news_api_key("different-length-key")
        .build();
    assert!(
        result.is_ok(),
        "Different length keys should both pass validation"
    );
}

#[test]
fn test_client_builder() {
    let config = StatbookConfig::builder()
        .stats_api_key("test-stats-key")
        .news_api_key("test-news-api-key")
        .build();
    assert!(config.is_ok());

    let bad_config = StatbookConfig::builder()
        .stats_api_key("")
        .news_api_key("test-news-api-key")
        .build();
    assert!(bad_config.is_err());
}

#[test]
fn build_uses_default_endpoints_and_tuning() {
    let config = StatbookConfig::builder()
        .stats_api_key("k1")
        .news_api_key("k2")
        .build()
        .unwrap();
    assert_eq!(config.stats_api_key, "k1");
    assert_eq!(config.news_api_key, "k2");
    assert_eq!(config.stats_base_url, "https://api.mysportsfeeds.com/v2.1");
    assert_eq!(config.news_base_url, "https://newsapi.org/v2");
    assert_eq!(config.news_config.max_articles, 5);
    assert_eq!(config.news_config.days_back, 7);
    assert!(matches!(config.news_config.sort_by, SortBy::PublishedAt));
    assert_eq!(config.news_config.language, "en");
}

#[test]
fn build_reports_missing_keys_by_name() {
    match StatbookConfig::builder().news_api_key("n").build() {
        Err(StatbookError::MissingApiKey { key }) => assert_eq!(key, "stats_api_key"),
        other => panic!("unexpected: {:?}", other),
    }
    match StatbookConfig::builder().stats_api_key("s").build() {
        Err(StatbookError::MissingApiKey { key }) => assert_eq!(key, "news_api_key"),
        other => panic!("unexpected: {:?}", other),
    }
}

#[test]
fn validation_messages_follow_rule_order() {
    let both_empty = StatbookConfig::new(String::new(), String::new());
    match both_empty.validate() {
        Err(StatbookError::Validation(m)) => assert_eq!(m, "Stats API key cannot be empty"),
        other => panic!("unexpected: {:?}", other),
    }
    let news_empty = StatbookConfig::new("s".to_string(), String::new());
    match news_empty.validate() {
        Err(StatbookError::Validation(m)) => assert_eq!(m, "News API key cannot be empty"),
        other => panic!("unexpected: {:?}", other),
    }
    match StatbookConfig::builder()
        .stats_api_key("s")
        .news_api_key("n")
        .stats_base_url("ftp://example.org")
        .build()
    {
        Err(StatbookError::Validation(m)) => {
            assert_eq!(m, "Stats base URL must be a valid HTTP URL")
        }
        other => panic!("unexpected: {:?}", other),
    }
    match StatbookConfig::builder()
        .stats_api_key("s")
        .news_api_key("n")
        .news_base_url("htt")
        .build()
    {
        Err(StatbookError::Validation(m)) => assert_eq!(m, "News base URL must be a valid HTTP URL"),
        other => panic!("unexpected: {:?}", other),
    }
}

#[test]
fn custom_endpoints_are_kept() {
    let config = StatbookConfig::builder()
        .stats_api_key("s")
        .news_api_key("n")
        .stats_base_url("http://localhost:8080")
        .news_base_url("https://news.example.org")
        .news_config(NewsConfig::new().with_max_articles(15))
        .build()
        .unwrap();
    assert_eq!(config.stats_base_url, "http://localhost:8080");
    assert_eq!(config.news_base_url, "https://news.example.org");
    assert_eq!(config.news_config.max_articles, 15);
    assert!(config.validate().is_ok());
}

#[test]
fn news_config_builders_and_query() {
    let tuning = NewsConfig::new()
        .with_max_articles(15)
        .with_days_back(30)
        .with_sort_by(SortBy::Relevancy)
        .with_language("de".to_string());
    assert_eq!(tuning.days_back, 30);
    assert_eq!(tuning.language, "de");
    let query = tuning.query_for("josh-allen");
    assert_eq!(query.player_name, "josh-allen");
    assert_eq!(query.page_size, 15);
    assert_eq!(query.sort_by, "relevancy");
    assert_eq!(query.from_date, "");
    assert_eq!(SortBy::PublishedAt.to_string(), "publishedAt");
    assert_eq!(SortBy::Popularity.to_string(), "popularity");
}

#[test]
fn with_news_config_replaces_tuning() {
    let config = StatbookConfig::new("s".to_string(), "n".to_string())
        .with_news_config(NewsConfig::new().with_sort_by(SortBy::Popularity));
    assert!(matches!(config.news_config.sort_by, SortBy::Popularity));
    assert_eq!(config.stats_api_key, "s");
}
