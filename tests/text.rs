use statbook::{collapse_whitespace, to_dash_case, Season, season_label};

#[test]
fn slug_folds_case_and_spacing() {
    assert_eq!(to_dash_case("Josh Allen"), "josh-allen");
    assert_eq!(to_dash_case("  JOSH   allen"), "josh-allen");
    assert_eq!(to_dash_case("josh-allen"), "josh-allen");
    assert_eq!(to_dash_case("Tom\tBrady\n"), "tom-brady");
}

#[test]
fn slug_is_idempotent_on_examples() {
    for name in ["Josh Allen", "  JOSH   allen", "A  b\tC", "", "   ", "Ja'Marr Chase"] {
        let once = to_dash_case(name);
        assert_eq!(to_dash_case(&once), once);
    }
}

#[test]
fn collapse_keeps_case_and_trims() {
    assert_eq!(collapse_whitespace("\tA  b\n"), "A-b");
    assert_eq!(collapse_whitespace(""), "");
    assert_eq!(collapse_whitespace(" \u{3000} "), "");
    assert_eq!(collapse_whitespace("one"), "one");
}

#[test]
fn season_labels() {
    assert_eq!(Season::Regular.as_str(), "regular");
    assert_eq!(Season::Playoffs.as_str(), "playoff");
    assert_eq!(Season::Latest.as_str(), "latest");
    assert_eq!(Season::Current.as_str(), "current");
    assert_eq!(Season::Upcoming.as_str(), "upcoming");
    assert_eq!(Season::Regular.format_with_years(2023, 2024), "2023-2024-regular");
    assert_eq!(Season::Latest.format_with_years(-5, 0), "-5-0-latest");
    assert_eq!(season_label(Some((2023, 2024)), &Season::Playoffs), "2023-2024-playoff");
    assert_eq!(season_label(None, &Season::Regular), "regular");
}
