use ffb_structs::api_token;
use ffb_structs::bet::{self, GameResult, UpsertBetStep};
use ffb_structs::cache_manager;
use ffb_structs::club;
use ffb_structs::common_api_structs::{Better, Goals, Score, ShortStatus, Status};
use ffb_structs::country;
use ffb_structs::ddos;
use ffb_structs::error::ApplicationError;
use ffb_structs::game::{self, GameCondition};
use ffb_structs::league;
use ffb_structs::scoreboard::{self, SeasonSelection};
use ffb_structs::search::Lookup;
use ffb_structs::season;
use ffb_structs::sql::SqlParam;
use ffb_structs::text;
use ffb_structs::token;
use ffb_structs::transaction_result::TransactionResult;
use ffb_structs::translation::Model as Translation;
use ffb_structs::translation_manager;
use ffb_structs::user::{self, FavoriteKind};

const ALL_STATUSES: [ShortStatus; 19] = [
    ShortStatus::Tbd, ShortStatus::Ns, ShortStatus::Fh, ShortStatus::Ht, ShortStatus::Sh,
    ShortStatus::Et, ShortStatus::P, ShortStatus::Ft, ShortStatus::Aet, ShortStatus::Pen,
    ShortStatus::Bt, ShortStatus::Susp, ShortStatus::Int, ShortStatus::Pst, ShortStatus::Canc,
    ShortStatus::Abd, ShortStatus::Awd, ShortStatus::Wo, ShortStatus::Live,
];

fn game_with(id: Option<&str>, fixture_id: u32, short: ShortStatus, fulltime: Option<Goals>, betters: Option<Vec<Better>>) -> game::Model {
    game::Model {
        id: id.map(|s| s.to_string()),
        season_id: Some(1),
        processed_as: None,
        betters,
        league_local_logo: None,
        home_local_logo: None,
        away_local_logo: None,
        result: None,
        fixture_id,
        status: Status { long: "Match Finished".to_string(), short, elapsed: Some(90) },
        goals: Goals { home: None, away: None },
        score: Score { fulltime, extratime: None, penalty: None },
    }
}

#[test]
fn transaction_result_classifies_counts() {
    assert_eq!(TransactionResult::from_expected_affected_rows(3, 3), TransactionResult::Success);
    assert_eq!(TransactionResult::from_expected_affected_rows(0, 0), TransactionResult::Success);
    assert_eq!(TransactionResult::from_expected_affected_rows(0, 2), TransactionResult::NoRowsAffected);
    assert_eq!(TransactionResult::from_expected_affected_rows(1, 2), TransactionResult::NotEnoughRowsAffected(1));
    assert_eq!(TransactionResult::from_expected_affected_rows(5, 2), TransactionResult::TooManyRowsAffected(5));
    assert_eq!(TransactionResult::expect_single_result(1), TransactionResult::Success);
    assert_eq!(TransactionResult::expect_single_result(0), TransactionResult::NoRowsAffected);
    assert_eq!(TransactionResult::expect_single_result(2), TransactionResult::TooManyRowsAffected(2));
}

#[test]
fn transaction_result_converts_to_bool() {
    let ok: bool = TransactionResult::expect_single_result(1).into();
    let ko: bool = TransactionResult::expect_single_result(7).into();
    assert!(ok);
    assert!(!ko);
    assert!(!TransactionResult::UnknownResult.is_success());
}

#[test]
fn transaction_result_describes_itself() {
    assert_eq!(TransactionResult::TooManyRowsAffected(12).describe(), "Too many rows affected : 12");
    assert_eq!(TransactionResult::NotEnoughRowsAffected(0).describe(), "Not enough rows affected : 0");
    assert_eq!(TransactionResult::Success.describe(), "The transaction executed with success");
}

#[test]
fn application_error_codes() {
    assert_eq!(ApplicationError::FormOutdated.http_error_code(), 205);
    assert_eq!(ApplicationError::SerialError.http_error_code(), 500);
    assert_eq!(ApplicationError::NoTokenStored.http_error_code(), 500);
    assert_eq!(ApplicationError::DatabaseError("x".into()).http_error_code(), 500);
    assert_eq!(ApplicationError::RedisError("x".into()).http_error_code(), 500);
    assert_eq!(ApplicationError::MongoError("x".into()).http_error_code(), 500);
    assert_eq!(ApplicationError::ElasticError("x".into()).http_error_code(), 500);
    assert_eq!(ApplicationError::TranslationError("L".into(), 2).http_error_code(), 500);
    assert_eq!(ApplicationError::ParseError("p".into()).http_error_code(), 500);
}

#[test]
fn application_error_messages() {
    assert_eq!(
        ApplicationError::TranslationError("HOME".into(), 42).message(),
        "A translatione error happened : the label HOME has been request for locale 42 but this mapping doesn't exist."
    );
    assert_eq!(
        ApplicationError::DatabaseError("1062 dup".into()).message(),
        "A database error happened, it has been reported and will be resolved as soon as possible : 1062 dup "
    );
    assert_eq!(ApplicationError::ParseError("bad".into()).message(), "A parse error happened : bad");
    assert_eq!(ApplicationError::SerialError.message(), "A serial error happened");
}

#[test]
fn serde_error_becomes_serial_error() {
    let e = serde_json::from_str::<Vec<u32>>("nope").unwrap_err();
    assert!(matches!(ApplicationError::from(e), ApplicationError::SerialError));
}

#[test]
fn decimal_and_hexadecimal_writing() {
    assert_eq!(text::decimal_string(0), "0");
    assert_eq!(text::decimal_string(1234567890), "1234567890");
    assert_eq!(text::decimal_string(u64::MAX), u64::MAX.to_string());
    let mut s = String::from("x");
    text::push_signed_decimal(&mut s, -42);
    assert_eq!(s, "x-42");
    let mut s = String::new();
    text::push_signed_decimal(&mut s, i64::MIN);
    assert_eq!(s, i64::MIN.to_string());
    let mut s = String::new();
    text::push_hexadecimal(&mut s, 0xdead_beef);
    assert_eq!(s, "deadbeef");
    assert_eq!(cache_manager::lookup_key(cache_manager::CLUBS_PREFIX, 255), "clubs::ff");
    assert_eq!(cache_manager::lookup_key(cache_manager::GAMES_PREFIX, 0), "games::0");
}

#[test]
fn game_result_from_goals() {
    assert_eq!(GameResult::from_goals(2, 1), GameResult::Win);
    assert_eq!(GameResult::from_goals(0, 3), GameResult::Loss);
    assert_eq!(GameResult::from_goals(1, 1), GameResult::Draw);
    assert_eq!(GameResult::from_goals(i16::MIN, i16::MAX), GameResult::Loss);
    assert_eq!(GameResult::from_goals(i16::MAX, i16::MIN), GameResult::Win);
}

#[test]
fn game_result_ids_round_trip() {
    for r in [GameResult::Win, GameResult::Draw, GameResult::Loss] {
        assert_eq!(GameResult::from_id(r.id()), Some(r));
    }
    assert_eq!(GameResult::Win.id(), 1);
    assert_eq!(GameResult::Draw.id(), 2);
    assert_eq!(GameResult::Loss.id(), 3);
    assert_eq!(GameResult::from_id(0), None);
    assert_eq!(GameResult::from_id(4), None);
    assert_eq!(GameResult::Draw.name(), "Draw");
}

#[test]
fn short_status_codes_round_trip() {
    for s in ALL_STATUSES {
        assert_eq!(ShortStatus::from_code(s.code()), Some(s));
    }
    assert_eq!(ShortStatus::Fh.code(), "1H");
    assert_eq!(ShortStatus::Sh.code(), "2H");
    assert_eq!(ShortStatus::from_code("ft"), None);
    assert_eq!(ShortStatus::from_code(""), None);
}

#[test]
fn finished_games_have_started() {
    for s in ALL_STATUSES {
        if s.is_finished() {
            assert!(s.is_started());
        }
    }
    assert!(!ShortStatus::Ns.is_started());
    assert!(!ShortStatus::Tbd.is_started());
    assert!(!ShortStatus::Pst.is_started());
    assert!(!ShortStatus::Canc.is_started());
    assert!(!ShortStatus::Pst.is_finished());
    let codes = ShortStatus::finished_codes();
    assert_eq!(codes, vec!["FT", "PEN", "AET"]);
}

#[test]
fn bet_of_a_user_on_a_game() {
    let betters = vec![
        Better { user_id: 4, game_result: GameResult::Loss },
        Better { user_id: 7, game_result: GameResult::Win },
        Better { user_id: 7, game_result: GameResult::Draw },
    ];
    let g = game_with(Some("a"), 10, ShortStatus::Ns, None, Some(betters));
    assert_eq!(g.get_bet_for_user(&7), Some(GameResult::Win));
    assert_eq!(g.get_bet_for_user(&4), Some(GameResult::Loss));
    assert_eq!(g.get_bet_for_user(&5), None);
    let nobody = game_with(Some("a"), 10, ShortStatus::Ns, None, None);
    assert_eq!(nobody.get_bet_for_user(&7), None);
    assert!(!g.is_started());
    let finished = game_with(Some("b"), 11, ShortStatus::Aet, None, None);
    assert!(finished.is_started() && finished.is_finished());
}

#[test]
fn validation_plan_keeps_games_with_known_scores() {
    let games = vec![
        game_with(Some("g1"), 1, ShortStatus::Ft, Some(Goals { home: Some(2), away: Some(0) }), None),
        game_with(None, 2, ShortStatus::Ft, Some(Goals { home: Some(1), away: Some(0) }), None),
        game_with(Some("g3"), 3, ShortStatus::Ft, Some(Goals { home: Some(1), away: None }), None),
        game_with(Some("g4"), 4, ShortStatus::Pen, None, None),
        game_with(Some("g5"), 5, ShortStatus::Aet, Some(Goals { home: Some(1), away: Some(1) }), None),
    ];
    let plan = bet::Entity::validation_plan(&games);
    assert_eq!(plan.len(), 2);
    assert_eq!((plan[0].game_id.as_str(), plan[0].fixture_id, plan[0].result), ("g1", 1, GameResult::Win));
    assert_eq!((plan[1].game_id.as_str(), plan[1].fixture_id, plan[1].result), ("g5", 5, GameResult::Draw));
    assert_eq!(bet::Entity::outcome_for_game(&games[3]), None);
}

#[test]
fn placing_a_bet_steps() {
    let s = bet::Entity::upsert_bet_next(UpsertBetStep::UpdateExistingBetter, 1);
    assert!(matches!(s, UpsertBetStep::StoreBet));
    let s = bet::Entity::upsert_bet_next(s, 1);
    assert!(matches!(s, UpsertBetStep::ClearGamesCache(TransactionResult::Success)));
    let s = bet::Entity::upsert_bet_next(s, 0);
    assert!(matches!(s, UpsertBetStep::Done(Ok(TransactionResult::Success))));

    let s = bet::Entity::upsert_bet_next(UpsertBetStep::UpdateExistingBetter, 0);
    assert!(matches!(s, UpsertBetStep::AddBetter));
    let s = bet::Entity::upsert_bet_next(s, 1);
    assert!(matches!(s, UpsertBetStep::StoreBet));
    let s = bet::Entity::upsert_bet_next(s, 2);
    assert!(matches!(s, UpsertBetStep::ClearGamesCache(TransactionResult::TooManyRowsAffected(2))));
    let s = bet::Entity::upsert_bet_next(s, 0);
    assert!(matches!(s, UpsertBetStep::Done(Ok(TransactionResult::TooManyRowsAffected(2)))));

    let s = bet::Entity::upsert_bet_next(UpsertBetStep::UpdateExistingBetter, 0);
    let s = bet::Entity::upsert_bet_next(s, 0);
    assert!(matches!(s, UpsertBetStep::Done(Err(ApplicationError::FormOutdated))));
    let s = bet::Entity::upsert_bet_next(s, 9);
    assert!(matches!(s, UpsertBetStep::Done(Err(ApplicationError::FormOutdated))));
}

#[test]
fn placing_a_bet_actions() {
    let req = bet::BetRequest { user_id: 7, fixture_id: 868, season_id: 2, result: GameResult::Loss };
    match bet::Entity::upsert_bet_action(&req, &UpsertBetStep::UpdateExistingBetter) {
        bet::UpsertBetAction::SetBetterResult { fixture_id, user_id, result } => {
            assert_eq!((fixture_id, user_id, result), (868, 7, GameResult::Loss))
        }
        other => panic!("unexpected action {:?}", other),
    }
    match bet::Entity::upsert_bet_action(&req, &UpsertBetStep::AddBetter) {
        bet::UpsertBetAction::AddBetter { fixture_id, user_id, result } => {
            assert_eq!((fixture_id, user_id, result), (868, 7, GameResult::Loss))
        }
        other => panic!("unexpected action {:?}", other),
    }
    match bet::Entity::upsert_bet_action(&req, &UpsertBetStep::StoreBet) {
        bet::UpsertBetAction::Execute(q) => {
            assert_eq!(q.sql, "INSERT INTO USER_BET(user_id, fixture_id, result_id, season_id, stake) VALUES(?,?,?,?,?) ON DUPLICATE KEY UPDATE result_id=?, stake=?");
            assert_eq!(q.params, vec![
                SqlParam::U32(7), SqlParam::U32(868), SqlParam::U32(3), SqlParam::U32(2),
                SqlParam::Stake, SqlParam::U32(3), SqlParam::Stake,
            ]);
        }
        other => panic!("unexpected action {:?}", other),
    }
    match bet::Entity::upsert_bet_action(&req, &UpsertBetStep::ClearGamesCache(TransactionResult::Success)) {
        bet::UpsertBetAction::ClearCache(p) => assert_eq!(p, "games:*"),
        other => panic!("unexpected action {:?}", other),
    }
    assert!(matches!(
        bet::Entity::upsert_bet_action(&req, &UpsertBetStep::Done(Err(ApplicationError::FormOutdated))),
        bet::UpsertBetAction::Finish
    ));
}

#[test]
fn scoring_the_bets_of_a_game() {
    let v = bet::BetValidation { game_id: "g1".to_string(), fixture_id: 868, result: GameResult::Draw };
    let q = v.scoring_query();
    assert_eq!(q.sql, "UPDATE USER_BET SET outcome=IF(result_id=?, stake*100, 0) WHERE fixture_id=?");
    assert_eq!(q.params, vec![SqlParam::U32(2), SqlParam::U32(868)]);
    assert_eq!(bet::Entity::scoreboard_cache_to_clear(&vec![]), None);
    assert_eq!(bet::Entity::scoreboard_cache_to_clear(&vec![0, 0]), None);
    assert_eq!(bet::Entity::scoreboard_cache_to_clear(&vec![0, 3, 0]), Some("scoreboard:*".to_string()));
}

#[test]
fn validation_skips_processed_and_unfinished_games() {
    let mut processed = game_with(Some("g1"), 1, ShortStatus::Ft, Some(Goals { home: Some(2), away: Some(0) }), None);
    processed.processed_as = Some(GameResult::Win);
    let mut not_a_bet = game_with(Some("g2"), 2, ShortStatus::Ft, Some(Goals { home: Some(0), away: Some(1) }), None);
    not_a_bet.season_id = None;
    let live = game_with(Some("g3"), 3, ShortStatus::Ht, Some(Goals { home: Some(0), away: Some(0) }), None);
    let pending = game_with(Some("g4"), 4, ShortStatus::Aet, Some(Goals { home: Some(0), away: Some(3) }), None);
    let plan = bet::Entity::validation_plan(&vec![processed, not_a_bet, live, pending.clone()]);
    assert_eq!(plan.len(), 1);
    assert_eq!((plan[0].game_id.as_str(), plan[0].fixture_id, plan[0].result), ("g4", 4, GameResult::Loss));
    // Once stored as processed, a second run has nothing to do.
    let mut done = pending;
    done.processed_as = Some(GameResult::Loss);
    assert!(bet::Entity::validation_plan(&vec![done]).is_empty());
}

#[test]
fn game_lookup_query() {
    let mut b = game::EntityBuilder::build();
    let q = b.query();
    assert!(q.date_pattern.is_none() && q.any_of.is_empty() && q.all_of.is_empty() && q.limit.is_none());

    b.date("2022-08-14").leagues(vec![61, 39]).clubs(vec![85]).bets(true).potential_bets(true).limit(10);
    let q = b.query();
    assert_eq!(q.date_pattern.as_deref(), Some("2022-08-14"));
    assert_eq!(q.limit, Some(10));
    assert_eq!(q.any_of.len(), 2);
    assert!(matches!(&q.any_of[0], GameCondition::HomeTeamIn(c) if c == &vec![85]));
    assert!(matches!(&q.any_of[1], GameCondition::AwayTeamIn(c) if c == &vec![85]));
    assert_eq!(q.all_of.len(), 3);
    assert!(matches!(&q.all_of[0], GameCondition::LeagueIn(l) if l == &vec![61, 39]));
    assert!(matches!(q.all_of[1], GameCondition::IsBet));
    assert!(matches!(q.all_of[2], GameCondition::HasOdds));

    let mut only_odds = game::EntityBuilder::build();
    only_odds.potential_bets(true);
    let q = only_odds.query();
    assert!(q.any_of.is_empty());
    assert_eq!(q.all_of.len(), 1);
    assert!(matches!(q.all_of[0], GameCondition::HasOdds));

    let mut favourite_bets = game::EntityBuilder::build();
    favourite_bets.leagues(vec![61]).bets(true);
    let q = favourite_bets.query();
    assert!(q.any_of.is_empty());
    assert_eq!(q.all_of.len(), 2);
    assert!(matches!(&q.all_of[0], GameCondition::LeagueIn(l) if l == &vec![61]));
    assert!(matches!(q.all_of[1], GameCondition::IsBet));
}

#[test]
fn club_lookup_ids_and_name_exclude_each_other() {
    let mut b = club::EntityBuilder::build();
    assert!(matches!(b.lookup(), Lookup::ByIds(None)));
    b.ids(Some(vec![1, 2]));
    assert!(matches!(b.lookup(), Lookup::ByIds(Some(ref v)) if v == &vec![1, 2]));
    b.name(Some("Lyon".to_string()));
    assert!(matches!(b.lookup(), Lookup::ByName(ref n) if n == "Lyon"));
    b.name(None);
    assert!(matches!(b.lookup(), Lookup::ByIds(None)));
    b.name(Some("Lille".to_string())).ids(Some(vec![3]));
    assert!(matches!(b.lookup(), Lookup::ByIds(Some(ref v)) if v == &vec![3]));
    b.ids(None);
    assert!(matches!(b.lookup(), Lookup::ByIds(None)));
}

#[test]
fn league_lookup_ids_and_name_exclude_each_other() {
    let mut b = league::EntityBuilder::build();
    b.name(Some("Ligue 1".to_string())).ids(Some(vec![61]));
    assert!(matches!(b.lookup(), Lookup::ByIds(Some(ref v)) if v == &vec![61]));
    b.ids(Some(vec![39])).name(Some("Premier League".to_string()));
    assert!(matches!(b.lookup(), Lookup::ByName(ref n) if n == "Premier League"));
}

#[test]
fn logos_move_to_the_assets_host() {
    let clubs = vec![
        club::Model { id: 33, name: "Manchester United".into(), logo: Some("https://media.api-sports.io/football/teams/33.png".into()), local_logo: None },
        club::Model { id: 34, name: "Newcastle".into(), logo: None, local_logo: None },
        club::Model { id: 35, name: "Bournemouth".into(), logo: Some("http://plain.example/35.png".into()), local_logo: None },
        club::Model { id: 36, name: "Burnley".into(), logo: Some("httpss://odd.example/36.png".into()), local_logo: None },
    ];
    let r = club::Entity::logo_replacements(&clubs, "/assets").unwrap();
    assert_eq!(r, vec![
        (33, "/assets/football/teams/33.png".to_string()),
        (35, "/assets/35.png".to_string()),
        (36, "/assets/36.png".to_string()),
    ]);
    assert!(club::Entity::logo_replacements(&vec![], "/assets").unwrap().is_empty());

    let leagues = vec![league::Model {
        id: 61, name: "Ligue 1".into(), local_logo: None, country: Some("France".into()),
        logo: "https://media.api-sports.io/football/leagues/61.png".into(), flag: None, round: None,
    }];
    assert_eq!(league::Entity::logo_replacements(&leagues, "/static").unwrap(), vec![(61, "/static/football/leagues/61.png".to_string())]);

    let countries = vec![
        country::Model { id: Some("c1".into()), name: "France".into(), code: Some("FR".into()), flag: Some("https://media.api-sports.io/flags/fr.svg".into()), local_flag: None },
        country::Model { id: None, name: "World".into(), code: None, flag: Some("https://media.api-sports.io/flags/w.svg".into()), local_flag: None },
    ];
    assert_eq!(country::Entity::flag_replacements(&countries, "/a").unwrap(), vec![("c1".to_string(), "/a/flags/fr.svg".to_string())]);
}

#[test]
fn season_lookup_statement() {
    let b = season::EntityBuilder::build();
    let q = b.query();
    assert_eq!(q.sql, "SELECT * FROM SEASON\nORDER BY is_main DESC, name DESC");
    assert!(q.params.is_empty());

    let mut b = season::EntityBuilder::build();
    b.is_main(Some(true)).is_closed(Some(false));
    let q = b.query();
    assert_eq!(q.sql, "SELECT * FROM SEASON\nWHERE\n\tis_closed=? AND\n\tis_main=?\nORDER BY is_main DESC, name DESC");
    assert_eq!(q.params, vec![SqlParam::Bool(false), SqlParam::Bool(true)]);

    let mut b = season::EntityBuilder::build();
    b.is_main(Some(false));
    let q = b.query();
    assert_eq!(q.sql, "SELECT * FROM SEASON\nWHERE\n\tis_main=?\nORDER BY is_main DESC, name DESC");
    assert_eq!(q.params, vec![SqlParam::Bool(false)]);
}

#[test]
fn scoreboard_season_selection() {
    let mut b = scoreboard::EntityBuilder::build();
    assert_eq!(b.selection(), SeasonSelection::Current);
    b.season_id(4);
    assert_eq!(b.selection(), SeasonSelection::Season(4));
    b.all_time(true);
    assert_eq!(b.selection(), SeasonSelection::AllTime);
    b.season_id(5);
    assert_eq!(b.selection(), SeasonSelection::Season(5));
    b.all_time(false);
    assert_eq!(b.selection(), SeasonSelection::Current);
}

#[test]
fn scoreboard_statement() {
    let mut b = scoreboard::EntityBuilder::build();
    let q = b.query(None);
    assert!(q.sql.starts_with("SELECT ub.user_id, usr.name as `user_name`"));
    assert!(q.sql.ends_with("\nFROM `USER_BET`ub INNER JOIN USER usr ON ub.user_id = usr.id\nGROUP BY user_id\nORDER BY points DESC"));
    assert!(q.params.is_empty());
    b.limit(Some(10));
    let q = b.query(Some(3));
    assert!(q.sql.ends_with("usr.id\nWHERE season_id=?\nGROUP BY user_id\nORDER BY points DESC\nLIMIT ?"));
    assert_eq!(q.params, vec![SqlParam::U32(3), SqlParam::U32(10)]);
}

fn tr(label: &str, locale: u32, text: &str) -> Translation {
    Translation { label_id: 1, label_name: label.to_string(), locale_id: locale, translation: text.to_string() }
}

#[test]
fn translation_manager_translates() {
    let m = translation_manager::Entity::init_from(vec![
        tr("MENU_ROOT", 1, "Home"),
        tr("MENU_ROOT", 2, "Accueil"),
        tr("MENU_WELCOME_BACK", 1, "Welcome back"),
        tr("MENU_ROOT", 1, "Start"),
    ]);
    assert_eq!(m.translate("MENU_ROOT", 1).unwrap(), "Start");
    assert_eq!(m.translate("MENU_ROOT", 2).unwrap(), "Accueil");
    assert_eq!(m.translate("MENU_WELCOME_BACK", 1).unwrap(), "Welcome back");
    match m.translate("MENU_WELCOME_BACK", 2) {
        Err(ApplicationError::TranslationError(label, locale)) => {
            assert_eq!(label, "MENU_WELCOME_BACK");
            assert_eq!(locale, 2);
        }
        _ => panic!("expected a translation error"),
    }
    assert!(matches!(m.translate("UNKNOWN", 9), Err(ApplicationError::TranslationError(_, 9))));
    let empty = translation_manager::Entity::init_from(vec![]);
    assert!(empty.translate("MENU_ROOT", 1).is_err());
}

#[test]
fn banned_addresses() {
    assert!(!ddos::Entity::is_banned_count(None));
    assert!(!ddos::Entity::is_banned_count(Some(0)));
    assert!(!ddos::Entity::is_banned_count(Some(15)));
    assert!(ddos::Entity::is_banned_count(Some(16)));
    assert!(ddos::Entity::is_banned_count(Some(u32::MAX)));
}

#[test]
fn session_token_keys() {
    let key = token::Entity::token_key("alice", "abc.def.ghi");
    assert_eq!(key, "token::alice::abc.def.ghi");
    let pattern = token::Entity::tokens_pattern("alice");
    assert_eq!(pattern, "token::alice:*");
    assert!(key.starts_with(pattern.trim_end_matches('*')));
    assert_eq!(token::ONE_WEEK_IN_SECONDS, 604_800);
}

#[test]
fn api_token_picks_the_first_returned() {
    let r = api_token::Entity::pick_token(&vec!["best".to_string(), "other".to_string()]);
    assert_eq!(r.unwrap(), "best");
    assert!(matches!(api_token::Entity::pick_token(&vec![]), Err(ApplicationError::NoTokenStored)));
}

#[test]
fn user_cache_keys_and_pages() {
    assert_eq!(user::Entity::fav_leagues_key(12), "fav_leagues:12");
    assert_eq!(user::Entity::fav_clubs_key(0), "fav_clubs:0");
    assert_eq!(user::Entity::users_page_key(3, 20, 1), "users:3::20::1");
    assert_eq!(user::Entity::page_offset(20, 3), 60);
    let u = user::Model { id: 9, name: "Bob".into(), login: "bob".into(), ..Default::default() };
    assert_eq!(u.describe(), "#9 named Bob with login bob");
}

#[test]
fn favorite_ids_cache() {
    assert!(matches!(user::Entity::favorites_from_cache(None), Ok(None)));
    let ids = user::Entity::favorites_from_cache(Some("[61,39,140]".to_string())).unwrap().unwrap();
    assert_eq!(ids, vec![61, 39, 140]);
    assert!(matches!(user::Entity::favorites_from_cache(Some("[-1]".to_string())), Err(ApplicationError::SerialError)));
    assert!(matches!(user::Entity::favorites_from_cache(Some("fav".to_string())), Err(ApplicationError::SerialError)));
    let text = user::Entity::favorites_cache_value(&vec![61, 39]);
    assert_eq!(text, "[61,39]");
    let back = user::Entity::favorites_from_cache(Some(text)).unwrap().unwrap();
    assert_eq!(back, vec![61, 39]);
    assert_eq!(user::Entity::favorites_cache_value(&vec![]), "[]");
}

fn bookmaker_with(bets: Option<Vec<Vec<&str>>>) -> ffb_structs::bookmaker::Model {
    ffb_structs::bookmaker::Model {
        id: 6,
        name: "Bwin".to_string(),
        is_main_bookmaker: None,
        bets: bets.map(|bets| {
            bets.into_iter()
                .enumerate()
                .map(|(i, odds)| ffb_structs::common_api_structs::Bet {
                    id: i as u32,
                    name: "Match Winner".to_string(),
                    values: odds
                        .into_iter()
                        .map(|o| ffb_structs::common_api_structs::Value { value: "Home".to_string(), odd: o.to_string() })
                        .collect(),
                })
                .collect()
        }),
    }
}

#[test]
fn odds_come_from_the_first_bet_of_the_first_bookmaker() {
    let bookmakers = vec![
        bookmaker_with(Some(vec![vec!["1.50", "3.40", "6.00"], vec!["9.9", "9.9", "9.9"]])),
        bookmaker_with(Some(vec![vec!["2.00", "2.00", "2.00"]])),
    ];
    assert_eq!(
        ffb_structs::odd::Entity::odds_texts(&bookmakers),
        Some(("1.50".to_string(), "3.40".to_string(), "6.00".to_string()))
    );
    assert_eq!(ffb_structs::odd::Entity::odds_texts(&vec![bookmaker_with(None)]), None);
    assert_eq!(ffb_structs::odd::Entity::odds_texts(&vec![bookmaker_with(Some(vec![vec!["1.1", "2.2"]]))]), None);
}

#[test]
fn favourite_changes_drop_the_key_their_reads_use() {
    let c = user::Entity::favorite_change(FavoriteKind::League, true, 12, 61);
    assert_eq!(c.query.sql, "INSERT INTO USER_LEAGUE(user_id, league_id) VALUES(?,?)");
    assert_eq!(c.query.params, vec![SqlParam::U32(12), SqlParam::U32(61)]);
    assert_eq!(c.cleared_key, "fav_leagues:12");
    assert_eq!(c.cleared_key, user::Entity::favorites_key(FavoriteKind::League, 12));
    let c = user::Entity::favorite_change(FavoriteKind::Club, false, 12, 85);
    assert_eq!(c.query.sql, "DELETE FROM USER_CLUB WHERE user_id=? AND club_id=? LIMIT 1");
    assert_eq!(c.cleared_key, "fav_clubs:12");
    let q = user::Entity::favorites_query(FavoriteKind::Club, 12);
    assert_eq!(q.sql, "SELECT club_id FROM USER_CLUB WHERE user_id=?");
    assert_eq!(q.params, vec![SqlParam::U32(12)]);
    // What is cached for a list reads back as that list.
    let text = user::Entity::favorites_cache_value(&vec![61, 0, 140]);
    assert_eq!(text, "[61,0,140]");
    assert_eq!(user::Entity::favorites_from_cache(Some(text)).unwrap(), Some(vec![61, 0, 140]));
}

#[test]
fn revocation_pattern_spares_other_logins() {
    let pattern = token::Entity::tokens_pattern("bob");
    let prefix = &pattern[..pattern.len() - 1];
    assert!(token::Entity::token_key("bob", "t1").starts_with(prefix));
    assert!(!token::Entity::token_key("bobby", "t1").starts_with(prefix));
    assert!(!token::Entity::token_key("bo", "b:t1").starts_with(prefix));
}

#[test]
fn labels_without_translation_use_their_default() {
    let labels = vec![
        ffb_structs::translation::Label { id: 1, name: "HOME".to_string(), default_translation: "Home".to_string() },
        ffb_structs::translation::Label { id: 2, name: "BETS".to_string(), default_translation: "Bets".to_string() },
    ];
    let stored = vec![ffb_structs::translation::StoredTranslation { label_id: 1, locale_id: 20, translation: "Accueil".to_string() }];
    let rows = ffb_structs::translation::Entity::resolve(&vec![10, 20], &labels, &stored);
    assert_eq!(rows.len(), 4);
    let order: Vec<(u32, &str, &str)> = rows.iter().map(|r| (r.locale_id, r.label_name.as_str(), r.translation.as_str())).collect();
    assert_eq!(order, vec![(10, "HOME", "Home"), (10, "BETS", "Bets"), (20, "HOME", "Accueil"), (20, "BETS", "Bets")]);
    let m = translation_manager::Entity::init_with_defaults(&vec![10, 20], &labels, &stored);
    assert_eq!(m.translate("HOME", 20).unwrap(), "Accueil");
    assert_eq!(m.translate("HOME", 10).unwrap(), "Home");
    assert_eq!(m.translate("BETS", 20).unwrap(), "Bets");
    assert!(matches!(m.translate("AWAY", 20), Err(ApplicationError::TranslationError(_, 20))));
    assert!(matches!(m.translate("HOME", 30), Err(ApplicationError::TranslationError(_, 30))));
}

#[test]
fn name_searches_ask_for_ten_hits() {
    assert_eq!(ffb_structs::search::search_path("clubs"), "clubs/_search?from=0&size=10");
    assert_eq!(ffb_structs::search::SEARCH_FIELD, "name");
}

#[test]
fn revoked_tokens_and_other_logins() {
    // A login with ':' stays apart from another as long as neither key
    // prefix begins the other.
    let pattern = token::Entity::tokens_pattern("a:b");
    let prefix = &pattern[..pattern.len() - 1];
    assert!(!token::Entity::token_key("c", "t").starts_with(prefix));
    assert!(token::Entity::token_key("a:b", "t").starts_with(prefix));
}
