//! In-memory providers driven by canned data, for exercising the lookups
//! without a network.
use crate::error::StatbookError;
use crate::models::{article_views, Article, ArticleView, NewsQuery, PlayerStats, PlayerStatsView};
use vstd::prelude::*;
use vstd::string::*;

verus! {

/// The map from names to values that a list of pairs describes; a name listed
/// twice maps to its last value.
pub open spec fn table_of<T, V>(pairs: Seq<(String, T)>, f: spec_fn(T) -> V) -> Map<Seq<char>, V>
    decreases pairs.len(),
{
    if pairs.len() == 0 {
        Map::empty()
    } else {
        table_of(pairs.drop_last(), f).insert(pairs.last().0@, f(pairs.last().1))
    }
}

proof fn lemma_table_hit<T, V>(pairs: Seq<(String, T)>, f: spec_fn(T) -> V, key: Seq<char>, i: int)
    requires
        0 <= i < pairs.len(),
        pairs[i].0@ == key,
        forall|j: int| i < j < pairs.len() ==> (#[trigger] pairs[j]).0@ != key,
    ensures
        table_of(pairs, f).contains_key(key),
        table_of(pairs, f)[key] == f(pairs[i].1),
    decreases pairs.len(),
{
    if i < pairs.len() - 1 {
        let init = pairs.drop_last();
        assert forall|j: int| i < j < init.len() implies (#[trigger] init[j]).0@ != key by {
            assert(init[j] == pairs[j]);
        }
        lemma_table_hit(init, f, key, i);
        assert(pairs[pairs.len() - 1].0@ != key);
    }
}

proof fn lemma_table_miss<T, V>(pairs: Seq<(String, T)>, f: spec_fn(T) -> V, key: Seq<char>)
    requires
        forall|j: int| 0 <= j < pairs.len() ==> (#[trigger] pairs[j]).0@ != key,
    ensures
        !table_of(pairs, f).contains_key(key),
    decreases pairs.len(),
{
    if pairs.len() > 0 {
        let init = pairs.drop_last();
        assert forall|j: int| 0 <= j < init.len() implies (#[trigger] init[j]).0@ != key by {
            assert(init[j] == pairs[j]);
        }
        lemma_table_miss(init, f, key);
        assert(pairs[pairs.len() - 1].0@ != key);
    }
}

/// The position of the last pair named `key`, if any.
fn find_last<T>(pairs: &Vec<(String, T)>, key: &String) -> (r: Option<usize>)
    ensures
        match r {
            Some(i) => i < pairs@.len() && pairs@[i as int].0@ == key@ && forall|j: int|
                i < j < pairs@.len() ==> (#[trigger] pairs@[j]).0@ != key@,
            None => forall|j: int| 0 <= j < pairs@.len() ==> (#[trigger] pairs@[j]).0@ != key@,
        },
{
    let mut i = pairs.len();
    while i > 0
        invariant
            i <= pairs@.len(),
            forall|j: int| i <= j < pairs@.len() ==> (#[trigger] pairs@[j]).0@ != key@,
        decreases i,
    {
        i = i - 1;
        if pairs[i].0 == *key {
            return Some(i);
        }
    }
    None
}

/// The view of a stored article list.
pub open spec fn articles_of(v: Vec<Article>) -> Seq<ArticleView> {
    article_views(v@)
}

/// The view of stored statistics.
pub open spec fn stats_of(s: PlayerStats) -> PlayerStatsView {
    s@
}

/// Nothing: only the presence of a stored error counts.
pub open spec fn presence<T>(t: T) -> () {
    ()
}

/// The canned record of Josh Allen.
pub open spec fn josh_allen_stats() -> PlayerStatsView {
    PlayerStatsView {
        first_name: "Josh"@,
        last_name: "Allen"@,
        primary_position: "QB"@,
        jersey_number: 17,
        current_team: "BUF"@,
        injury: ""@,
        rookie: false,
        games_played: 16,
        season: ""@,
    }
}

/// The canned record of Tom Brady.
pub open spec fn tom_brady_stats() -> PlayerStatsView {
    PlayerStatsView {
        first_name: "Tom"@,
        last_name: "Brady"@,
        primary_position: "QB"@,
        jersey_number: 12,
        current_team: "TB"@,
        injury: ""@,
        rookie: false,
        games_played: 17,
        season: ""@,
    }
}

fn quarterback(first: &str, last: &str, jersey: u32, team: &str, games: u64) -> (r: PlayerStats)
    ensures
        r@ == (PlayerStatsView {
            first_name: first@,
            last_name: last@,
            primary_position: "QB"@,
            jersey_number: jersey,
            current_team: team@,
            injury: ""@,
            rookie: false,
            games_played: games,
            season: ""@,
        }),
{
    PlayerStats {
        first_name: first.to_owned(),
        last_name: last.to_owned(),
        primary_position: String::from_str("QB"),
        jersey_number: jersey,
        current_team: team.to_owned(),
        injury: String::from_str(""),
        rookie: false,
        games_played: games,
        season: String::from_str(""),
    }
}

fn article(title: &str, description: &str, published_at: &str, content: &str) -> (r: Article)
    ensures
        r@ == (ArticleView {
            title: title@,
            description: description@,
            published_at: published_at@,
            content: content@,
        }),
{
    Article {
        title: title.to_owned(),
        description: description.to_owned(),
        published_at: published_at.to_owned(),
        content: content.to_owned(),
    }
}

/// The canned news of Josh Allen, newest first.
pub open spec fn josh_allen_news() -> Seq<ArticleView> {
    seq![
        ArticleView {
            title: "Josh Allen leads Bills to victory"@,
            description: "Quarterback throws for 300 yards"@,
            published_at: "2024-01-15T10:00:00Z"@,
            content: "Full article content here..."@,
        },
        ArticleView {
            title: "Allen named AFC Player of the Week"@,
            description: "Recognition for outstanding performance"@,
            published_at: "2024-01-14T15:30:00Z"@,
            content: "More article content..."@,
        },
    ]
}

/// The canned news of Tom Brady.
pub open spec fn tom_brady_news() -> Seq<ArticleView> {
    seq![
        ArticleView {
            title: "Brady announces retirement"@,
            description: "Legendary quarterback calls it a career"@,
            published_at: "2024-01-10T12:00:00Z"@,
            content: "Retirement announcement content..."@,
        },
    ]
}

/// A statistics provider answering from canned records.
#[derive(Debug)]
pub struct MockStatsProvider {
    responses: Vec<(String, PlayerStats)>,
    errors: Vec<(String, StatbookError)>,
}

impl MockStatsProvider {
    /// The records it holds, by name.
    pub closed spec fn records(&self) -> Map<Seq<char>, PlayerStatsView> {
        table_of(self.responses@, |s: PlayerStats| stats_of(s))
    }

    /// The names it reports as not found whatever it holds.
    pub closed spec fn failing(&self) -> Set<Seq<char>> {
        table_of(self.errors@, |e: StatbookError| presence(e)).dom()
    }

    /// A provider that knows no player.
    pub fn new() -> (r: MockStatsProvider)
        ensures
            r.records() == Map::<Seq<char>, PlayerStatsView>::empty(),
            r.failing() == Set::<Seq<char>>::empty(),
    {
        let r = MockStatsProvider { responses: Vec::new(), errors: Vec::new() };
        proof {
            assert(r.failing() =~= Set::<Seq<char>>::empty());
        }
        r
    }

    /// A provider holding the records of `josh-allen` and `tom-brady`.
    pub fn with_defaults() -> (r: MockStatsProvider)
        ensures
            r.records() == map!["josh-allen"@ => josh_allen_stats(), "tom-brady"@ => tom_brady_stats()],
            r.failing() == Set::<Seq<char>>::empty(),
    {
        let mut provider = MockStatsProvider::new();
        provider.add_player_stats("josh-allen", quarterback("Josh", "Allen", 17, "BUF", 16));
        provider.add_player_stats("tom-brady", quarterback("Tom", "Brady", 12, "TB", 17));
        provider
    }

    /// Stores `stats` as the record of `name`, replacing any earlier one.
    pub fn add_player_stats(&mut self, name: &str, stats: PlayerStats)
        ensures
            final(self).records() == old(self).records().insert(name@, stats@),
            final(self).failing() == old(self).failing(),
    {
        self.responses.push((name.to_owned(), stats));
        proof {
            assert(self.responses@.drop_last() =~= old(self).responses@);
        }
    }

    /// Makes lookups of `name` fail. The error given is kept; a lookup reports
    /// the player as not found.
    pub fn add_player_error(&mut self, name: &str, error: StatbookError)
        ensures
            final(self).records() == old(self).records(),
            final(self).failing() == old(self).failing().insert(name@),
    {
        self.errors.push((name.to_owned(), error));
        proof {
            assert(self.errors@.drop_last() =~= old(self).errors@);
            assert(self.failing() =~= old(self).failing().insert(name@));
        }
    }

    /// Makes lookups of `name` report the player as not found.
    pub fn add_player_not_found(&mut self, name: &str)
        ensures
            final(self).records() == old(self).records(),
            final(self).failing() == old(self).failing().insert(name@),
    {
        let error = StatbookError::PlayerNotFound { name: name.to_owned() };
        self.add_player_error(name, error);
    }

    /// The record of `name`, labelled with `season`. A failing name, or one
    /// without a record, is reported as not found.
    pub fn fetch_player_stats(&self, name: &str, season: &str) -> (r: Result<
        PlayerStats,
        StatbookError,
    >)
        ensures
            self.failing().contains(name@) ==> r is Err && r->Err_0.is_not_found(name@),
            !self.failing().contains(name@) && self.records().contains_key(name@) ==> r is Ok
                && r->Ok_0@ == (PlayerStatsView { season: season@, ..self.records()[name@] }),
            !self.failing().contains(name@) && !self.records().contains_key(name@) ==> r is Err
                && r->Err_0.is_not_found(name@),
    {
        let key = name.to_owned();
        match find_last(&self.errors, &key) {
            Some(i) => {
                proof {
                    lemma_table_hit(self.errors@, |e: StatbookError| presence(e), name@, i as int);
                }
                return Err(StatbookError::PlayerNotFound { name: key });
            },
            None => {
                proof {
                    lemma_table_miss(self.errors@, |e: StatbookError| presence(e), name@);
                }
            },
        }
        match find_last(&self.responses, &key) {
            Some(i) => {
                proof {
                    lemma_table_hit(self.responses@, |s: PlayerStats| stats_of(s), name@, i as int);
                }
                let stats = self.responses[i].1.clone();
                Ok(stats.with_season(season))
            },
            None => {
                proof {
                    lemma_table_miss(self.responses@, |s: PlayerStats| stats_of(s), name@);
                }
                Err(StatbookError::PlayerNotFound { name: key })
            },
        }
    }
}

/// The message a failing mock news lookup reports.
pub open spec fn mock_news_message() -> Seq<char> {
    "Mock news error"@
}

/// A news provider answering from canned article lists.
#[derive(Debug)]
pub struct MockNewsProvider {
    responses: Vec<(String, Vec<Article>)>,
    errors: Vec<(String, StatbookError)>,
}

impl MockNewsProvider {
    /// The article lists it holds, by player name.
    pub closed spec fn articles(&self) -> Map<Seq<char>, Seq<ArticleView>> {
        table_of(self.responses@, |v: Vec<Article>| articles_of(v))
    }

    /// The player names whose lookups fail.
    pub closed spec fn failing(&self) -> Set<Seq<char>> {
        table_of(self.errors@, |e: StatbookError| presence(e)).dom()
    }

    /// A provider with no articles.
    pub fn new() -> (r: MockNewsProvider)
        ensures
            r.articles() == Map::<Seq<char>, Seq<ArticleView>>::empty(),
            r.failing() == Set::<Seq<char>>::empty(),
    {
        let r = MockNewsProvider { responses: Vec::new(), errors: Vec::new() };
        proof {
            assert(r.failing() =~= Set::<Seq<char>>::empty());
        }
        r
    }

    /// A provider holding the news of `josh-allen` (two articles) and
    /// `tom-brady` (one).
    pub fn with_defaults() -> (r: MockNewsProvider)
        ensures
            r.articles() == map!["josh-allen"@ => josh_allen_news(), "tom-brady"@ => tom_brady_news()],
            r.failing() == Set::<Seq<char>>::empty(),
    {
        let mut provider = MockNewsProvider::new();
        let josh = vec![
            article(
                "Josh Allen leads Bills to victory",
                "Quarterback throws for 300 yards",
                "2024-01-15T10:00:00Z",
                "Full article content here...",
            ),
            article(
                "Allen named AFC Player of the Week",
                "Recognition for outstanding performance",
                "2024-01-14T15:30:00Z",
                "More article content...",
            ),
        ];
        proof {
            assert(article_views(josh@) =~= josh_allen_news());
        }
        provider.add_news_articles("josh-allen", josh);
        let tom = vec![
            article(
                "Brady announces retirement",
                "Legendary quarterback calls it a career",
                "2024-01-10T12:00:00Z",
                "Retirement announcement content...",
            ),
        ];
        proof {
            assert(article_views(tom@) =~= tom_brady_news());
        }
        provider.add_news_articles("tom-brady", tom);
        provider
    }

    /// Stores `articles` as the news of `player_name`, replacing any earlier list.
    pub fn add_news_articles(&mut self, player_name: &str, articles: Vec<Article>)
        ensures
            final(self).articles() == old(self).articles().insert(
                player_name@,
                article_views(articles@),
            ),
            final(self).failing() == old(self).failing(),
    {
        self.responses.push((player_name.to_owned(), articles));
        proof {
            assert(self.responses@.drop_last() =~= old(self).responses@);
        }
    }

    /// Makes lookups for `player_name` fail with a service error.
    pub fn add_news_error(&mut self, player_name: &str, error: StatbookError)
        ensures
            final(self).articles() == old(self).articles(),
            final(self).failing() == old(self).failing().insert(player_name@),
    {
        self.errors.push((player_name.to_owned(), error));
        proof {
            assert(self.errors@.drop_last() =~= old(self).errors@);
            assert(self.failing() =~= old(self).failing().insert(player_name@));
        }
    }

    /// The articles stored for the query's player, in the order given; none for
    /// an unknown player. A failing player gets a service error (status 500).
    pub fn fetch_player_news(&self, query: &NewsQuery) -> (r: Result<Vec<Article>, StatbookError>)
        ensures
            self.failing().contains(query.player_name@) ==> r is Err && r->Err_0.is_news_api(
                500,
                mock_news_message(),
            ),
            !self.failing().contains(query.player_name@) && self.articles().contains_key(
                query.player_name@,
            ) ==> r is Ok && article_views(r->Ok_0@) == self.articles()[query.player_name@],
            !self.failing().contains(query.player_name@) && !self.articles().contains_key(
                query.player_name@,
            ) ==> r is Ok && r->Ok_0@.len() == 0,
    {
        let key = &query.player_name;
        match find_last(&self.errors, key) {
            Some(i) => {
                proof {
                    lemma_table_hit(self.errors@, |e: StatbookError| presence(e), key@, i as int);
                }
                return Err(
                    StatbookError::NewsApi { status: 500, message: String::from_str("Mock news error") },
                );
            },
            None => {
                proof {
                    lemma_table_miss(self.errors@, |e: StatbookError| presence(e), key@);
                }
            },
        }
        match find_last(&self.responses, key) {
            Some(i) => {
                proof {
                    lemma_table_hit(self.responses@, |v: Vec<Article>| articles_of(v), key@, i as int);
                }
                let articles = self.responses[i].1.clone();
                proof {
                    assert(articles@ =~= self.responses@[i as int].1@);
                }
                Ok(articles)
            },
            None => {
                proof {
                    lemma_table_miss(self.responses@, |v: Vec<Article>| articles_of(v), key@);
                }
                Ok(Vec::new())
            },
        }
    }
}

impl Default for MockStatsProvider {
    fn default() -> (r: MockStatsProvider)
        ensures
            r.records() == map!["josh-allen"@ => josh_allen_stats(), "tom-brady"@ => tom_brady_stats()],
            r.failing() == Set::<Seq<char>>::empty(),
    {
        MockStatsProvider::with_defaults()
    }
}

impl Default for MockNewsProvider {
    fn default() -> (r: MockNewsProvider)
        ensures
            r.articles() == map!["josh-allen"@ => josh_allen_news(), "tom-brady"@ => tom_brady_news()],
            r.failing() == Set::<Seq<char>>::empty(),
    {
        MockNewsProvider::with_defaults()
    }
}

} // verus!
