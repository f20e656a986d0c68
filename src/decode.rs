//! Decoding of the statistics and news payloads into domain records.
//!
//! Every member that feeds a record is optional: an absent (or null) one reads
//! as its zero value. A member of the wrong type, or a document that is not
//! JSON, is a decode failure. Members that feed no record are not read.
use crate::error::StatbookError;
use crate::json::{
    as_flag, as_list, as_text, as_unsigned, is_null, is_object, json_model, member, member_of,
    parse_json, parse_model, shape_error, JsonModel,
};
use crate::models::{
    article_views, zero_stats, Article, ArticleView, PlayerStats, PlayerStatsView,
};
use serde_json::Value;
use vstd::prelude::*;
use vstd::string::*;

verus! {

/// A text member: absent or null reads as empty; none when it is not a string.
pub open spec fn text_field(d: JsonModel, key: Seq<char>) -> Option<Seq<char>> {
    match member_of(d, key) {
        None => Some(Seq::empty()),
        Some(JsonModel::Null) => Some(Seq::empty()),
        Some(JsonModel::Text(s)) => Some(s),
        _ => None,
    }
}

/// A `u32` member: absent or null reads as 0; none when it is not an integer
/// from 0 to `u32::MAX`.
pub open spec fn u32_field(d: JsonModel, key: Seq<char>) -> Option<u32> {
    match member_of(d, key) {
        None => Some(0u32),
        Some(JsonModel::Null) => Some(0u32),
        Some(JsonModel::Number(Some(n))) => if n <= u32::MAX {
            Some(n as u32)
        } else {
            None
        },
        _ => None,
    }
}

/// A `u64` member: absent or null reads as 0; none when it is not an integer
/// from 0 to `u64::MAX`.
pub open spec fn u64_field(d: JsonModel, key: Seq<char>) -> Option<u64> {
    match member_of(d, key) {
        None => Some(0u64),
        Some(JsonModel::Null) => Some(0u64),
        Some(JsonModel::Number(Some(n))) => Some(n),
        _ => None,
    }
}

/// A boolean member: absent or null reads as false.
pub open spec fn bool_field(d: JsonModel, key: Seq<char>) -> Option<bool> {
    match member_of(d, key) {
        None => Some(false),
        Some(JsonModel::Null) => Some(false),
        Some(JsonModel::Bool(b)) => Some(b),
        _ => None,
    }
}

/// The empty object.
pub open spec fn empty_object() -> JsonModel {
    JsonModel::Object(Map::empty())
}

/// A nested record that may be absent (then empty), but not null.
pub open spec fn record_field(d: JsonModel, key: Seq<char>) -> Option<JsonModel> {
    match member_of(d, key) {
        None => Some(empty_object()),
        Some(JsonModel::Object(m)) => Some(JsonModel::Object(m)),
        _ => None,
    }
}

/// A nested record that may be absent or null (then empty).
pub open spec fn optional_record_field(d: JsonModel, key: Seq<char>) -> Option<JsonModel> {
    match member_of(d, key) {
        None => Some(empty_object()),
        Some(JsonModel::Null) => Some(empty_object()),
        Some(JsonModel::Object(m)) => Some(JsonModel::Object(m)),
        _ => None,
    }
}

/// The statistics of one entry of `playerStatsTotals`, labelled with `season`;
/// none when the entry is malformed.
pub open spec fn entry_stats(entry: JsonModel, season: Seq<char>) -> Option<PlayerStatsView> {
    let info = record_field(entry, "player"@);
    let totals = record_field(entry, "stats"@);
    if !(entry is Object) || info is None || totals is None {
        None
    } else {
        let info = info->0;
        let team = optional_record_field(info, "currentTeam"@);
        let first = text_field(info, "firstName"@);
        let last = text_field(info, "lastName"@);
        let position = text_field(info, "primaryPosition"@);
        let jersey = u32_field(info, "jerseyNumber"@);
        let injury = text_field(info, "currentInjury"@);
        let rookie = bool_field(info, "rookie"@);
        let games = u64_field(totals->0, "gamesPlayed"@);
        if team is None || first is None || last is None || position is None || jersey is None
            || injury is None || rookie is None || games is None {
            None
        } else {
            let abbreviation = text_field(team->0, "abbreviation"@);
            if abbreviation is None {
                None
            } else {
                Some(
                    PlayerStatsView {
                        first_name: first->0,
                        last_name: last->0,
                        primary_position: position->0,
                        jersey_number: jersey->0,
                        current_team: abbreviation->0,
                        injury: injury->0,
                        rookie: rookie->0,
                        games_played: games->0,
                        season,
                    },
                )
            }
        }
    }
}

/// What a statistics document says.
pub enum StatsDocument {
    /// Not the expected shape.
    Malformed,
    /// Well formed, with no player entry.
    NoPlayer,
    /// The first entry.
    First(PlayerStatsView),
}

/// The meaning of a statistics document: its `playerStatsTotals` list (absent
/// reads as empty) must hold well-formed entries, and the first one is the
/// player.
pub open spec fn stats_document(doc: JsonModel, season: Seq<char>) -> StatsDocument {
    let list = member_of(doc, "playerStatsTotals"@);
    if !(doc is Object) {
        StatsDocument::Malformed
    } else if list is None {
        StatsDocument::NoPlayer
    } else if !(list->0 is List) {
        StatsDocument::Malformed
    } else {
        let entries = list->0->List_0;
        if exists|i: int| 0 <= i < entries.len() && (#[trigger] entry_stats(entries[i], season)) is None {
            StatsDocument::Malformed
        } else if entries.len() == 0 {
            StatsDocument::NoPlayer
        } else {
            StatsDocument::First(entry_stats(entries[0], season)->0)
        }
    }
}

/// One article; none when it is malformed.
pub open spec fn article_of(a: JsonModel) -> Option<ArticleView> {
    let title = text_field(a, "title"@);
    let description = text_field(a, "description"@);
    let published = text_field(a, "publishedAt"@);
    let content = text_field(a, "content"@);
    if !(a is Object) || title is None || description is None || published is None
        || content is None {
        None
    } else {
        Some(
            ArticleView {
                title: title->0,
                description: description->0,
                published_at: published->0,
                content: content->0,
            },
        )
    }
}

/// The articles of a news document, in order; none when it is malformed. The
/// `articles` list is required.
pub open spec fn news_document(doc: JsonModel) -> Option<Seq<ArticleView>> {
    let list = member_of(doc, "articles"@);
    if !(doc is Object) || list is None || !(list->0 is List) {
        None
    } else {
        let items = list->0->List_0;
        if exists|i: int| 0 <= i < items.len() && (#[trigger] article_of(items[i])) is None {
            None
        } else {
            Some(items.map_values(|a: JsonModel| article_of(a)->0))
        }
    }
}

/// Whether `d` is absent, or an object with none of the given members.
pub open spec fn absent_or_bare(d: Option<JsonModel>, keys: Seq<Seq<char>>) -> bool {
    match d {
        None => true,
        Some(JsonModel::Object(m)) => forall|i: int| 0 <= i < keys.len() ==> !m.contains_key(#[trigger] keys[i]),
        _ => false,
    }
}

/// The members of the `player` record that feed a [`PlayerStats`].
pub open spec fn player_keys() -> Seq<Seq<char>> {
    seq![
        "firstName"@,
        "lastName"@,
        "primaryPosition"@,
        "jerseyNumber"@,
        "currentTeam"@,
        "currentInjury"@,
        "rookie"@,
    ]
}

/// An entry whose optional members are all absent decodes to the zero record,
/// not to a failure.
pub proof fn lemma_sparse_entry_is_zero(entry: JsonModel, season: Seq<char>)
    requires
        entry is Object,
        absent_or_bare(member_of(entry, "player"@), player_keys()),
        absent_or_bare(member_of(entry, "stats"@), seq!["gamesPlayed"@]),
    ensures
        entry_stats(entry, season) == Some(PlayerStatsView { season, ..zero_stats() }),
{
    let keys = player_keys();
    assert(keys[0] == "firstName"@);
    assert(keys[1] == "lastName"@);
    assert(keys[2] == "primaryPosition"@);
    assert(keys[3] == "jerseyNumber"@);
    assert(keys[4] == "currentTeam"@);
    assert(keys[5] == "currentInjury"@);
    assert(keys[6] == "rookie"@);
    assert(seq!["gamesPlayed"@][0] == "gamesPlayed"@);
    let e = empty_object();
    assert(member_of(e, "abbreviation"@) is None);
}

/// A statistics document whose player list is empty, or absent, reports the
/// player as not found.
pub proof fn lemma_empty_list_not_found(
    doc: JsonModel,
    season: Seq<char>,
    r: Result<PlayerStats, StatbookError>,
    name: Seq<char>,
)
    requires
        doc is Object,
        member_of(doc, "playerStatsTotals"@) is None || member_of(doc, "playerStatsTotals"@)
            == Some(JsonModel::List(Seq::empty())),
        reports_stats(r, stats_document(doc, season), name),
    ensures
        stats_document(doc, season) == StatsDocument::NoPlayer,
        r is Err && r->Err_0.is_not_found(name),
{
}

fn shape_failure(key: &str) -> (r: StatbookError)
    ensures
        r is JsonParse,
{
    StatbookError::JsonParse(shape_error(key))
}

fn read_text(d: &Value, key: &str) -> (r: Result<String, StatbookError>)
    ensures
        match text_field(json_model(*d), key@) {
            Some(s) => r is Ok && r->Ok_0@ == s,
            None => r is Err && r->Err_0 is JsonParse,
        },
{
    match member(d, key) {
        None => Ok(String::new()),
        Some(v) => {
            if is_null(v) {
                Ok(String::new())
            } else {
                match as_text(v) {
                    Some(s) => Ok(s.to_owned()),
                    None => Err(shape_failure(key)),
                }
            }
        },
    }
}

fn read_u32(d: &Value, key: &str) -> (r: Result<u32, StatbookError>)
    ensures
        match u32_field(json_model(*d), key@) {
            Some(n) => r == Ok::<u32, StatbookError>(n),
            None => r is Err && r->Err_0 is JsonParse,
        },
{
    match member(d, key) {
        None => Ok(0),
        Some(v) => {
            if is_null(v) {
                Ok(0)
            } else {
                match as_unsigned(v) {
                    Some(n) => if n <= u32::MAX as u64 {
                        Ok(n as u32)
                    } else {
                        Err(shape_failure(key))
                    },
                    None => Err(shape_failure(key)),
                }
            }
        },
    }
}

fn read_u64(d: &Value, key: &str) -> (r: Result<u64, StatbookError>)
    ensures
        match u64_field(json_model(*d), key@) {
            Some(n) => r == Ok::<u64, StatbookError>(n),
            None => r is Err && r->Err_0 is JsonParse,
        },
{
    match member(d, key) {
        None => Ok(0),
        Some(v) => {
            if is_null(v) {
                Ok(0)
            } else {
                match as_unsigned(v) {
                    Some(n) => Ok(n),
                    None => Err(shape_failure(key)),
                }
            }
        },
    }
}

fn read_bool(d: &Value, key: &str) -> (r: Result<bool, StatbookError>)
    ensures
        match bool_field(json_model(*d), key@) {
            Some(b) => r == Ok::<bool, StatbookError>(b),
            None => r is Err && r->Err_0 is JsonParse,
        },
{
    match member(d, key) {
        None => Ok(false),
        Some(v) => {
            if is_null(v) {
                Ok(false)
            } else {
                match as_flag(v) {
                    Some(b) => Ok(b),
                    None => Err(shape_failure(key)),
                }
            }
        },
    }
}

/// The text member `key` of the member record `record` of `d`, where that record may
/// be absent or null.
fn read_nested_text(d: &Value, record: &str, key: &str) -> (r: Result<String, StatbookError>)
    ensures
        match optional_record_field(json_model(*d), record@) {
            None => r is Err && r->Err_0 is JsonParse,
            Some(inner) => match text_field(inner, key@) {
                Some(s) => r is Ok && r->Ok_0@ == s,
                None => r is Err && r->Err_0 is JsonParse,
            },
        },
{
    match member(d, record) {
        None => Ok(String::new()),
        Some(v) => {
            if is_null(v) {
                Ok(String::new())
            } else if is_object(v) {
                read_text(v, key)
            } else {
                Err(shape_failure(record))
            }
        },
    }
}

/// The statistics of one entry of a statistics document, labelled with `season`.
pub fn decode_entry(entry: &Value, season: &str) -> (r: Result<PlayerStats, StatbookError>)
    ensures
        match entry_stats(json_model(*entry), season@) {
            Some(v) => r is Ok && r->Ok_0@ == v,
            None => r is Err && r->Err_0 is JsonParse,
        },
{
    if !is_object(entry) {
        return Err(shape_failure("playerStatsTotals"));
    }
    let ghost e = json_model(*entry);
    let info = match member(entry, "player") {
        None => None,
        Some(v) => if is_object(v) {
            Some(v)
        } else {
            return Err(shape_failure("player"));
        },
    };
    let totals = match member(entry, "stats") {
        None => None,
        Some(v) => if is_object(v) {
            Some(v)
        } else {
            return Err(shape_failure("stats"));
        },
    };
    let games_played = match totals {
        None => 0,
        Some(t) => read_u64(t, "gamesPlayed")?,
    };
    match info {
        None => {
            proof {
                assert(record_field(e, "player"@) == Some(empty_object()));
            }
            let stats = PlayerStats {
                first_name: String::new(),
                last_name: String::new(),
                primary_position: String::new(),
                jersey_number: 0,
                current_team: String::new(),
                injury: String::new(),
                rookie: false,
                games_played,
                season: season.to_owned(),
            };
            Ok(stats)
        },
        Some(p) => {
            let current_team = read_nested_text(p, "currentTeam", "abbreviation")?;
            let first_name = read_text(p, "firstName")?;
            let last_name = read_text(p, "lastName")?;
            let primary_position = read_text(p, "primaryPosition")?;
            let jersey_number = read_u32(p, "jerseyNumber")?;
            let injury = read_text(p, "currentInjury")?;
            let rookie = read_bool(p, "rookie")?;
            Ok(
                PlayerStats {
                    first_name,
                    last_name,
                    primary_position,
                    jersey_number,
                    current_team,
                    injury,
                    rookie,
                    games_played,
                    season: season.to_owned(),
                },
            )
        },
    }
}

/// Whether `r` is what a statistics lookup of `name` reports for a document
/// that means `d`.
pub open spec fn reports_stats(
    r: Result<PlayerStats, StatbookError>,
    d: StatsDocument,
    name: Seq<char>,
) -> bool {
    match d {
        StatsDocument::Malformed => r is Err && r->Err_0 is JsonParse,
        StatsDocument::NoPlayer => r is Err && r->Err_0.is_not_found(name),
        StatsDocument::First(v) => r is Ok && r->Ok_0@ == v,
    }
}

/// Whether `r` is what a news lookup reports for a document whose articles are
/// `d` (none: malformed).
pub open spec fn reports_articles(
    r: Result<Vec<Article>, StatbookError>,
    d: Option<Seq<ArticleView>>,
) -> bool {
    match d {
        None => r is Err && r->Err_0 is JsonParse,
        Some(a) => r is Ok && article_views(r->Ok_0@) == a,
    }
}

fn not_found(name: &str) -> (r: StatbookError)
    ensures
        r.is_not_found(name@),
{
    StatbookError::PlayerNotFound { name: name.to_owned() }
}

/// The player of a statistics document: the first entry of its
/// `playerStatsTotals`, after every entry has been checked.
pub fn decode_player_stats(doc: &Value, name: &str, season: &str) -> (r: Result<
    PlayerStats,
    StatbookError,
>)
    ensures
        reports_stats(r, stats_document(json_model(*doc), season@), name@),
{
    let ghost d = json_model(*doc);
    if !is_object(doc) {
        return Err(shape_failure("playerStatsTotals"));
    }
    let entries = match member(doc, "playerStatsTotals") {
        None => {
            return Err(not_found(name));
        },
        Some(list) => match as_list(list) {
            Some(items) => items,
            None => {
                return Err(shape_failure("playerStatsTotals"));
            },
        },
    };
    let ghost items = member_of(d, "playerStatsTotals"@)->0->List_0;
    let mut first: Option<PlayerStats> = None;
    let mut i: usize = 0;
    while i < entries.len()
        invariant
            d == json_model(*doc),
            d is Object,
            member_of(d, "playerStatsTotals"@) is Some,
            member_of(d, "playerStatsTotals"@)->0 is List,
            items == member_of(d, "playerStatsTotals"@)->0->List_0,
            i <= entries@.len(),
            entries@.len() == items.len(),
            forall|j: int| 0 <= j < items.len() ==> json_model(#[trigger] entries@[j]) == items[j],
            forall|j: int| 0 <= j < i ==> (#[trigger] entry_stats(items[j], season@)) is Some,
            i == 0 ==> first is None,
            i > 0 ==> first is Some && first->0@ == entry_stats(items[0], season@)->0,
        decreases entries.len() - i,
    {
        match decode_entry(&entries[i], season) {
            Ok(s) => {
                if i == 0 {
                    first = Some(s);
                }
            },
            Err(e) => {
                assert(entry_stats(items[i as int], season@) is None);
                assert(exists|j: int|
                    0 <= j < items.len() && (#[trigger] entry_stats(items[j], season@)) is None);
                return Err(e);
            },
        }
        i = i + 1;
    }
    match first {
        None => Err(not_found(name)),
        Some(s) => Ok(s),
    }
}

/// One article of a news document.
pub fn decode_article(a: &Value) -> (r: Result<Article, StatbookError>)
    ensures
        match article_of(json_model(*a)) {
            Some(v) => r is Ok && r->Ok_0@ == v,
            None => r is Err && r->Err_0 is JsonParse,
        },
{
    if !is_object(a) {
        return Err(shape_failure("articles"));
    }
    let title = read_text(a, "title")?;
    let description = read_text(a, "description")?;
    let published_at = read_text(a, "publishedAt")?;
    let content = read_text(a, "content")?;
    Ok(Article { title, description, published_at, content })
}

/// The articles of a news document, in order.
pub fn decode_articles(doc: &Value) -> (r: Result<Vec<Article>, StatbookError>)
    ensures
        reports_articles(r, news_document(json_model(*doc))),
{
    let ghost d = json_model(*doc);
    if !is_object(doc) {
        return Err(shape_failure("articles"));
    }
    let list = match member(doc, "articles") {
        None => {
            return Err(shape_failure("articles"));
        },
        Some(list) => match as_list(list) {
            Some(items) => items,
            None => {
                return Err(shape_failure("articles"));
            },
        },
    };
    let ghost items = member_of(d, "articles"@)->0->List_0;
    let mut out: Vec<Article> = Vec::new();
    let mut i: usize = 0;
    while i < list.len()
        invariant
            d == json_model(*doc),
            d is Object,
            member_of(d, "articles"@) is Some,
            member_of(d, "articles"@)->0 is List,
            items == member_of(d, "articles"@)->0->List_0,
            i <= list@.len(),
            list@.len() == items.len(),
            forall|j: int| 0 <= j < items.len() ==> json_model(#[trigger] list@[j]) == items[j],
            forall|j: int| 0 <= j < i ==> (#[trigger] article_of(items[j])) is Some,
            out@.len() == i,
            forall|j: int| 0 <= j < i ==> (#[trigger] out@[j])@ == article_of(items[j])->0,
        decreases list.len() - i,
    {
        match decode_article(&list[i]) {
            Ok(a) => {
                out.push(a);
            },
            Err(e) => {
                assert(article_of(items[i as int]) is None);
                assert(exists|j: int| 0 <= j < items.len() && (#[trigger] article_of(items[j])) is None);
                return Err(e);
            },
        }
        i = i + 1;
    }
    assert(article_views(out@) =~= items.map_values(|a: JsonModel| article_of(a)->0));
    Ok(out)
}

/// The player of a statistics payload, labelled with `season`.
pub fn stats_from_body(body: &str, name: &str, season: &str) -> (r: Result<
    PlayerStats,
    StatbookError,
>)
    ensures
        match parse_model(body@) {
            None => r is Err && r->Err_0 is JsonParse,
            Some(doc) => reports_stats(r, stats_document(doc, season@), name@),
        },
{
    match parse_json(body) {
        Ok(doc) => decode_player_stats(&doc, name, season),
        Err(e) => Err(StatbookError::JsonParse(e)),
    }
}

/// The articles of a news payload.
pub fn articles_from_body(body: &str) -> (r: Result<Vec<Article>, StatbookError>)
    ensures
        match parse_model(body@) {
            None => r is Err && r->Err_0 is JsonParse,
            Some(doc) => reports_articles(r, news_document(doc)),
        },
{
    match parse_json(body) {
        Ok(doc) => decode_articles(&doc),
        Err(e) => Err(StatbookError::JsonParse(e)),
    }
}

} // verus!
