use statbook::{
    plan_lookup, season_label, summarize, Article, FetchStrategy, MockNewsProvider,
    MockStatsProvider, NewsQuery, PlayerNews, PlayerStats, PlayerSummary, PlayerSummaryResult,
    Season, StatbookError,
};

/// Runs a lookup the way a client does, one fetch after the other, counting the
/// calls made to each provider.
fn run(
    stats: &MockStatsProvider,
    news: &MockNewsProvider,
    name: &str,
    strategy: FetchStrategy,
    calls: &mut (u32, u32),
) -> Result<PlayerSummaryResult, StatbookError> {
    let plan = plan_lookup(name, strategy);
    let stats_outcome = if plan.fetch_stats {
        calls.0 += 1;
        Some(stats.fetch_player_stats(&plan.identifier, Season::Latest.as_str()))
    } else {
        None
    };
    let news_outcome = match &plan.news_query {
        Some(q) => {
            calls.1 += 1;
            Some(news.fetch_player_news(q))
        }
        None => None,
    };
    summarize(strategy, stats_outcome, news_outcome)
}

fn failing_news() -> MockNewsProvider {
    let mut news = MockNewsProvider::with_defaults();
    news.add_news_error(
        "josh-allen",
        StatbookError::NewsApi { status: 503, message: "down".to_string() },
    );
    news
}

#[test]
fn stats_only_never_asks_for_news() {
    let stats = MockStatsProvider::with_defaults();
    let news = MockNewsProvider::with_defaults();
    let mut calls = (0, 0);
    let result = run(&stats, &news, "Josh Allen", FetchStrategy::StatsOnly, &mut calls).unwrap();
    assert_eq!(calls, (1, 0));
    assert_eq!(result.player_stats.first_name, "Josh");
    assert!(result.news_result.unwrap().is_empty());
    assert!(plan_lookup("x", FetchStrategy::StatsOnly).news_query.is_none());
}

#[test]
fn news_only_never_asks_for_stats() {
    let stats = MockStatsProvider::with_defaults();
    let news = MockNewsProvider::with_defaults();
    let mut calls = (0, 0);
    let result = run(&stats, &news, "josh-allen", FetchStrategy::NewsOnly, &mut calls).unwrap();
    assert_eq!(calls, (0, 1));
    assert_eq!(result.player_stats.first_name, "");
    assert_eq!(result.player_stats.jersey_number, 0);
    assert_eq!(result.news_result.unwrap().len(), 2);
}

#[test]
fn tolerant_both_keeps_news_failure_as_data() {
    let stats = MockStatsProvider::with_defaults();
    let news = failing_news();
    let mut calls = (0, 0);
    let strategy = FetchStrategy::Both { fail_on_news_error: false };
    let result = run(&stats, &news, "josh-allen", strategy, &mut calls).unwrap();
    assert_eq!(calls, (1, 1));
    assert_eq!(result.player_stats.first_name, "Josh");
    assert_eq!(result.player_stats.jersey_number, 17);
    assert!(result.news_result.is_err());
}

#[test]
fn strict_both_fails_on_news_failure() {
    let stats = MockStatsProvider::with_defaults();
    let news = failing_news();
    let mut calls = (0, 0);
    let strategy = FetchStrategy::Both { fail_on_news_error: true };
    match run(&stats, &news, "josh-allen", strategy, &mut calls) {
        Err(StatbookError::NewsApi { status, message }) => {
            assert_eq!(status, 500);
            assert_eq!(message, "Mock news error");
        }
        other => panic!("unexpected: {:?}", other),
    }
}

#[test]
fn stats_failure_is_always_fatal() {
    let stats = MockStatsProvider::with_defaults();
    let news = MockNewsProvider::with_defaults();
    for strategy in [
        FetchStrategy::StatsOnly,
        FetchStrategy::Both { fail_on_news_error: false },
        FetchStrategy::Both { fail_on_news_error: true },
    ] {
        let mut calls = (0, 0);
        match run(&stats, &news, "Nobody Known", strategy, &mut calls) {
            Err(StatbookError::PlayerNotFound { name }) => assert_eq!(name, "nobody-known"),
            other => panic!("unexpected: {:?}", other),
        }
    }
}

#[test]
fn both_succeeding_keeps_both() {
    let stats = MockStatsProvider::with_defaults();
    let news = MockNewsProvider::with_defaults();
    let mut calls = (0, 0);
    let result = run(&stats, &news, "Tom Brady", FetchStrategy::default(), &mut calls).unwrap();
    assert_eq!(result.player_stats.last_name, "Brady");
    assert_eq!(result.player_stats.season, "latest");
    let articles = result.news_result.unwrap();
    assert_eq!(articles.len(), 1);
    assert_eq!(articles[0].title, "Brady announces retirement");
}

#[test]
fn summarize_news_only_failure_propagates() {
    let failure = StatbookError::NewsApi { status: 401, message: "no".to_string() };
    match summarize(FetchStrategy::NewsOnly, None, Some(Err(failure))) {
        Err(StatbookError::NewsApi { status, .. }) => assert_eq!(status, 401),
        other => panic!("unexpected: {:?}", other),
    }
}

#[test]
fn plan_uses_slug_and_default_query() {
    let plan = plan_lookup("  JOSH   allen", FetchStrategy::Both { fail_on_news_error: true });
    assert_eq!(plan.identifier, "josh-allen");
    assert!(plan.fetch_stats);
    let query = plan.news_query.unwrap();
    assert_eq!(query.player_name, "josh-allen");
    assert_eq!(query.page_size, 5);
    assert_eq!(query.sort_by, "publishedAt");
    assert_eq!(query.from_date, "");
    assert!(!plan_lookup("x", FetchStrategy::NewsOnly).fetch_stats);
}

#[test]
fn test_get_player_stats_mock() {
    let stats_provider = MockStatsProvider::with_defaults();
    let plan = plan_lookup("josh-allen", FetchStrategy::StatsOnly);
    let label = season_label(None, &Season::Regular);
    let stats = stats_provider.fetch_player_stats(&plan.identifier, &label).unwrap();

    assert_eq!(stats.first_name, "Josh");
    assert_eq!(stats.last_name, "Allen");
    assert_eq!(stats.primary_position, "QB");
    assert_eq!(stats.jersey_number, 17);
    assert_eq!(stats.current_team, "BUF");
    assert_eq!(stats.season, "regular");
}

#[test]
fn test_get_player_news_mock() {
    let news_provider = MockNewsProvider::with_defaults();
    let query = NewsQuery::for_player("josh-allen");
    let articles = news_provider.fetch_player_news(&query).unwrap();
    let news = PlayerNews::new(articles, query);

    assert!(!news.is_empty());
    assert!(news.articles[0].title.contains("Josh Allen"));
}

#[test]
fn test_get_player_summary_mock() {
    let stats = MockStatsProvider::with_defaults()
        .fetch_player_stats("josh-allen", "regular")
        .unwrap();
    let news = MockNewsProvider::with_defaults()
        .fetch_player_news(&NewsQuery::for_player("josh-allen"));
    let result = PlayerSummary::from_parts(stats, news);

    assert_eq!(result.first_name, "Josh");
    assert_eq!(result.last_name, "Allen");
    assert!(!result.news.is_empty());
}

#[test]
fn test_get_player_summary_with_news_mock() {
    let stats = MockStatsProvider::with_defaults()
        .fetch_player_stats("josh-allen", "regular")
        .unwrap();
    let news = MockNewsProvider::with_defaults()
        .fetch_player_news(&NewsQuery::for_player("josh-allen"));
    let summary = PlayerSummary::from_parts(stats, news);

    assert_eq!(summary.first_name, "Josh");
    assert_eq!(summary.last_name, "Allen");
    assert_eq!(summary.primary_position, "QB");
    assert_eq!(summary.current_team, "BUF");
    assert!(!summary.news.is_empty());
}

#[test]
fn summary_drops_failed_news() {
    let stats = MockStatsProvider::with_defaults()
        .fetch_player_stats("tom-brady", "latest")
        .unwrap();
    let summary = PlayerSummary::from_parts(
        stats,
        Err(StatbookError::NewsApi { status: 500, message: "x".to_string() }),
    );
    assert_eq!(summary.jersey_number, 12);
    assert_eq!(summary.games_played, 17);
    assert!(summary.news.is_empty());
}

#[test]
fn test_season_parameter_integration() {
    let provider = MockStatsProvider::with_defaults();

    let regular = provider
        .fetch_player_stats("josh-allen", &season_label(None, &Season::Regular))
        .unwrap();
    assert_eq!(regular.season, "regular");

    let playoff = provider
        .fetch_player_stats("josh-allen", &season_label(None, &Season::Playoffs))
        .unwrap();
    assert_eq!(playoff.season, "playoff");

    let with_years = provider
        .fetch_player_stats("josh-allen", &season_label(Some((2023, 2024)), &Season::Regular))
        .unwrap();
    assert_eq!(with_years.season, "2023-2024-regular");

    let summary_stats = provider
        .fetch_player_stats("josh-allen", &season_label(Some((2023, 2024)), &Season::Playoffs))
        .unwrap();
    assert_eq!(summary_stats.first_name, "Josh");
    assert_eq!(summary_stats.last_name, "Allen");
}

#[test]
fn test_mock_client_stats() {
    let stats = MockStatsProvider::with_defaults()
        .fetch_player_stats("josh-allen", "latest")
        .unwrap();

    assert_eq!(stats.first_name, "Josh");
    assert_eq!(stats.last_name, "Allen");
    assert_eq!(stats.primary_position, "QB");
}

#[test]
fn test_mock_client_news() {
    let query = NewsQuery::for_player("josh-allen");
    let news = MockNewsProvider::with_defaults().fetch_player_news(&query).unwrap();

    assert!(!news.is_empty());
    assert!(news[0].title.contains("Josh Allen"));
}

#[test]
fn test_client_with_mock_providers() {
    let stats = MockStatsProvider::with_defaults()
        .fetch_player_stats("josh-allen", "regular")
        .unwrap();
    assert_eq!(stats.first_name, "Josh");

    let query = NewsQuery::for_player("josh-allen");
    let news = MockNewsProvider::with_defaults().fetch_player_news(&query).unwrap();
    assert!(!news.is_empty());
}

#[test]
fn mock_news_returns_stored_articles_in_order() {
    let provider = MockNewsProvider::with_defaults();
    let articles = provider.fetch_player_news(&NewsQuery::for_player("josh-allen")).unwrap();
    assert_eq!(articles.len(), 2);
    assert_eq!(articles[0].title, "Josh Allen leads Bills to victory");
    assert_eq!(articles[1].title, "Allen named AFC Player of the Week");
    assert_eq!(articles[1].published_at, "2024-01-14T15:30:00Z");
    let unknown = provider.fetch_player_news(&NewsQuery::for_player("unknown-player")).unwrap();
    assert!(unknown.is_empty());
}

#[test]
fn mock_providers_replace_and_fail() {
    let mut stats = MockStatsProvider::new();
    assert!(matches!(
        stats.fetch_player_stats("a", ""),
        Err(StatbookError::PlayerNotFound { .. })
    ));
    let mut record = PlayerStats::default();
    record.first_name = "First".to_string();
    stats.add_player_stats("a", record.clone());
    record.first_name = "Second".to_string();
    stats.add_player_stats("a", record);
    assert_eq!(stats.fetch_player_stats("a", "").unwrap().first_name, "Second");
    stats.add_player_not_found("a");
    assert!(matches!(
        stats.fetch_player_stats("a", ""),
        Err(StatbookError::PlayerNotFound { .. })
    ));

    let mut news = MockNewsProvider::new();
    let article = Article {
        title: "t".to_string(),
        description: String::new(),
        published_at: String::new(),
        content: String::new(),
    };
    news.add_news_articles("b", vec![article.clone(), article]);
    let query = NewsQuery::for_player("b");
    assert_eq!(news.fetch_player_news(&query).unwrap().len(), 2);
    news.add_news_articles("b", Vec::new());
    assert!(news.fetch_player_news(&query).unwrap().is_empty());
}

#[test]
fn player_news_counts() {
    let news = PlayerNews::new(Vec::new(), NewsQuery::for_player("x")).with_total_count(42);
    assert_eq!(news.total_count, Some(42));
    assert_eq!(news.len(), 0);
    assert!(news.is_empty());
}
