use statbook::{articles_from_body, decode_player_stats, stats_from_body, StatbookError};

const FULL: &str = r#"{
  "lastUpdatedOn": "2024-01-20T00:00:00Z",
  "playerStatsTotals": [
    {
      "player": {
        "id": 7549,
        "firstName": "Josh",
        "lastName": "Allen",
        "primaryPosition": "QB",
        "jerseyNumber": 17,
        "currentTeam": { "id": 48, "abbreviation": "BUF" },
        "currentInjury": null,
        "rookie": false,
        "height": "6'5\""
      },
      "team": { "id": 48, "abbreviation": "BUF" },
      "stats": { "gamesPlayed": 16, "passing": { "passYards": 4306, "passPct": 66.5 } }
    }
  ]
}"#;

#[test]
fn full_payload_decodes() {
    let stats = stats_from_body(FULL, "josh-allen", "latest").unwrap();
    assert_eq!(stats.first_name, "Josh");
    assert_eq!(stats.last_name, "Allen");
    assert_eq!(stats.primary_position, "QB");
    assert_eq!(stats.jersey_number, 17);
    assert_eq!(stats.current_team, "BUF");
    assert_eq!(stats.injury, "");
    assert!(!stats.rookie);
    assert_eq!(stats.games_played, 16);
    assert_eq!(stats.season, "latest");
}

#[test]
fn sparse_payload_gives_zero_record() {
    for body in [
        r#"{"playerStatsTotals":[{}]}"#,
        r#"{"playerStatsTotals":[{"player":{},"stats":{}}]}"#,
        r#"{"playerStatsTotals":[{"player":{"currentTeam":null,"firstName":null}}]}"#,
    ] {
        let stats = stats_from_body(body, "x", "").unwrap();
        assert_eq!(stats.first_name, "");
        assert_eq!(stats.last_name, "");
        assert_eq!(stats.primary_position, "");
        assert_eq!(stats.jersey_number, 0);
        assert_eq!(stats.current_team, "");
        assert_eq!(stats.injury, "");
        assert!(!stats.rookie);
        assert_eq!(stats.games_played, 0);
        assert_eq!(stats.season, "");
    }
}

#[test]
fn empty_player_list_is_not_found() {
    for body in [r#"{"playerStatsTotals":[]}"#, r#"{"lastUpdatedOn":"x"}"#] {
        match stats_from_body(body, "nobody", "latest") {
            Err(StatbookError::PlayerNotFound { name }) => assert_eq!(name, "nobody"),
            other => panic!("unexpected: {:?}", other),
        }
    }
}

#[test]
fn malformed_payloads_are_decode_errors() {
    for body in [
        "not json",
        "{\"playerStatsTotals\": [",
        "[]",
        r#"{"playerStatsTotals":null}"#,
        r#"{"playerStatsTotals":{}}"#,
        r#"{"playerStatsTotals":[{"player":{"jerseyNumber":"17"}}]}"#,
        r#"{"playerStatsTotals":[{"player":{"jerseyNumber":4294967296}}]}"#,
        r#"{"playerStatsTotals":[{"player":{"jerseyNumber":-1}}]}"#,
        r#"{"playerStatsTotals":[{"player":{"rookie":"no"}}]}"#,
        r#"{"playerStatsTotals":[{"player":null}]}"#,
        r#"{"playerStatsTotals":[{"player":{"currentTeam":"BUF"}}]}"#,
        r#"{"playerStatsTotals":[{"stats":{"gamesPlayed":1.5}}]}"#,
        r#"{"playerStatsTotals":[{}, {"player":{"firstName":3}}]}"#,
        r#"{"playerStatsTotals":[7]}"#,
    ] {
        match stats_from_body(body, "x", "") {
            Err(StatbookError::JsonParse(_)) => {}
            other => panic!("{}: unexpected {:?}", body, other),
        }
    }
}

#[test]
fn first_entry_is_used() {
    let body = r#"{"playerStatsTotals":[
        {"player":{"firstName":"A","jerseyNumber":4294967295}},
        {"player":{"firstName":"B"}}]}"#;
    let stats = stats_from_body(body, "x", "").unwrap();
    assert_eq!(stats.first_name, "A");
    assert_eq!(stats.jersey_number, u32::MAX);
}

#[test]
fn decode_from_parsed_document() {
    let doc: serde_json::Value = serde_json::from_str(FULL).unwrap();
    let stats = decode_player_stats(&doc, "josh-allen", "2023-2024-regular").unwrap();
    assert_eq!(stats.first_name, "Josh");
    assert_eq!(stats.season, "2023-2024-regular");
}

#[test]
fn articles_decode_in_order_with_defaults() {
    let body = r#"{"status":"ok","totalResults":3,"articles":[
        {"source":{"id":null,"name":"X"},"title":"First","description":"d1",
         "publishedAt":"2024-01-15T10:00:00Z","content":"c1","url":"http://x"},
        {"title":"Second"},
        {"title":null,"description":null}]}"#;
    let articles = articles_from_body(body).unwrap();
    assert_eq!(articles.len(), 3);
    assert_eq!(articles[0].title, "First");
    assert_eq!(articles[0].description, "d1");
    assert_eq!(articles[0].published_at, "2024-01-15T10:00:00Z");
    assert_eq!(articles[0].content, "c1");
    assert_eq!(articles[1].title, "Second");
    assert_eq!(articles[1].description, "");
    assert_eq!(articles[2].title, "");
}

#[test]
fn no_articles_is_success() {
    let articles = articles_from_body(r#"{"status":"ok","totalResults":0,"articles":[]}"#).unwrap();
    assert!(articles.is_empty());
}

#[test]
fn malformed_news_payloads_are_decode_errors() {
    for body in [
        "<html>",
        r#"{"status":"ok"}"#,
        r#"{"articles":null}"#,
        r#"{"articles":[{"title":5}]}"#,
        r#"{"articles":["x"]}"#,
    ] {
        match articles_from_body(body) {
            Err(StatbookError::JsonParse(_)) => {}
            other => panic!("{}: unexpected {:?}", body, other),
        }
    }
}
