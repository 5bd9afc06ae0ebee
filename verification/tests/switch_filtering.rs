use sweetch_bot::entities::WatchedGame;
use sweetch_bot::switch::acceptable_games;
use sweetch_bot::switch::build_url;
use sweetch_bot::switch::Game;

/// A price in minor currency units (cents).
fn cents(price: f64) -> u64 {
    (price * 100.0).round() as u64
}

fn provider_with_ok_result(result: Vec<Game>) -> impl Fn(String) -> Result<Vec<Game>, String> {
    move |_title: String| Ok(result.clone())
}

#[test]
fn test_build_url_with_space() {
    // given
    let title = "Test title";

    // when
    let url = build_url(title);

    // then
    assert_eq!(
        url,
        "http://search.nintendo-europe.com/en/select?rows=99&fq=type:GAME%20AND%20system_type:nintendoswitch*%20AND%20product_code_txt:*%20AND%20title:Test title&q=Test title&sort=sorting_title%20asc&start=0&wt=json"
    );
}

#[test]
fn test_build_url_with_colon() {
    // given
    let title = "Test:title";

    // when
    let url = build_url(title);

    // then
    assert_eq!(
        url,
        "http://search.nintendo-europe.com/en/select?rows=99&fq=type:GAME%20AND%20system_type:nintendoswitch*%20AND%20product_code_txt:*%20AND%20title:Test\\:title&q=Test:title&sort=sorting_title%20asc&start=0&wt=json"
    );
}

#[test]
fn test_build_url_with_special_chars() {
    // given
    let title = "Test!@#$%^&*()-=[]\\;',./<>?:\"{}|+_";

    // when
    let url = build_url(title);

    // then
    assert_eq!(
        url,
        "http://search.nintendo-europe.com/en/select?rows=99&fq=type:GAME%20AND%20system_type:nintendoswitch*%20AND%20product_code_txt:*%20AND%20title:Test!@#$%^&*()-=[]\\;',./<>?\\:\"{}|+_&q=Test!@#$%^&*()-=[]\\;',./<>?:\"{}|+_&sort=sorting_title%20asc&start=0&wt=json"
    );
}

#[test]
fn test_build_url_with_empty_title() {
    // given
    let title = "";

    // when
    let url = build_url(title);

    // then
    assert_eq!(
        url,
        "http://search.nintendo-europe.com/en/select?rows=99&fq=type:GAME%20AND%20system_type:nintendoswitch*%20AND%20product_code_txt:*%20AND%20title:&q=&sort=sorting_title%20asc&start=0&wt=json"
    );
}

#[test]
fn test_acceptable_games_with_empty_games_list() {
    // given
    let games_provider = provider_with_ok_result(vec![]);

    let watched_games = vec![WatchedGame::new("Game 1").with_acceptable_price(cents(1.0))];

    // when
    let filtered_games = acceptable_games(&watched_games, games_provider);

    // then
    assert_eq!(filtered_games, vec![]);
}

#[test]
fn test_acceptable_price_with_title_not_matching() {
    // given
    let games_provider = provider_with_ok_result(vec![
        Game {
            title: "Game 1".into(),
            ..Game::default()
        },
        Game::default(),
    ]);

    let watched_games = vec![WatchedGame::new("Game 3")];

    // when
    let filtered_games = acceptable_games(&watched_games, games_provider);

    // then
    assert_eq!(filtered_games, vec![]);
}

#[test]
fn test_acceptable_games_with_regular_price_acceptable() {
    // given
    let games_provider = provider_with_ok_result(vec![
        Game {
            title: "Game 1".into(),
            price_regular: Some(cents(7.0)),
            ..Game::default()
        },
        Game::default(),
    ]);

    let watched_games = vec![WatchedGame::new("Game 1").with_acceptable_price(cents(10.0))];

    // when
    let filtered_games = acceptable_games(&watched_games, games_provider);

    // then
    assert_eq!(
        filtered_games,
        vec![Game {
            title: "Game 1".into(),
            price_regular: Some(cents(7.0)),
            ..Game::default()
        }]
    );
}

#[test]
fn test_acceptable_games_with_discounted_price_acceptable() {
    // given
    let games_provider = provider_with_ok_result(vec![
        Game {
            title: "Game 1".into(),
            price_discounted: Some(cents(5.0)),
            ..Game::default()
        },
        Game::default(),
    ]);

    let watched_games = vec![WatchedGame::new("Game 1").with_acceptable_price(cents(10.0))];

    // when
    let filtered_games = acceptable_games(&watched_games, games_provider);

    // then
    assert_eq!(
        filtered_games,
        vec![Game {
            title: "Game 1".into(),
            price_discounted: Some(cents(5.0)),
            ..Game::default()
        }]
    );
}

#[test]
fn test_acceptable_games_with_game_which_is_on_sale() {
    // given
    let games_provider = provider_with_ok_result(vec![
        Game {
            title: "Game 1".into(),
            price_has_discount: Some(true),
            ..Game::default()
        },
        Game::default(),
    ]);

    let watched_games = vec![WatchedGame::new("Game 1")];

    // when
    let filtered_games = acceptable_games(&watched_games, games_provider);

    // then
    assert_eq!(
        filtered_games,
        vec![Game {
            title: "Game 1".into(),
            price_has_discount: Some(true),
            ..Game::default()
        }]
    );
}

#[test]
fn test_acceptable_games_without_acceptable_price_but_with_discount() {
    // given
    let games_provider = provider_with_ok_result(vec![
        Game {
            title: "Game 1".into(),
            price_has_discount: Some(true),
            price_discounted: Some(cents(150.0)),
            ..Game::default()
        },
        Game::default(),
    ]);

    let watched_games = vec![WatchedGame::new("Game 1")];

    // when
    let filtered_games = acceptable_games(&watched_games, games_provider);

    // then
    assert_eq!(
        filtered_games,
        vec![Game {
            title: "Game 1".into(),
            price_has_discount: Some(true),
            price_discounted: Some(cents(150.0)),
            ..Game::default()
        }]
    );
}

#[test]
fn test_acceptable_games_with_acceptable_price_and_without_discount() {
    // given
    let games_provider = provider_with_ok_result(vec![
        Game {
            title: "Game 1".into(),
            price_has_discount: Some(false),
            price_regular: Some(cents(5.0)),
            ..Game::default()
        },
        Game::default(),
    ]);

    let watched_games = vec![WatchedGame::new("Game 1").with_acceptable_price(cents(10.0))];

    // when
    let filtered_games = acceptable_games(&watched_games, games_provider);

    // then
    assert_eq!(
        filtered_games,
        vec![Game {
            title: "Game 1".into(),
            price_has_discount: Some(false),
            price_regular: Some(cents(5.0)),
            ..Game::default()
        }]
    );
}

#[test]
fn test_acceptable_games_without_acceptable_price_and_without_discount() {
    // given
    let games_provider = provider_with_ok_result(vec![
        Game {
            title: "Game 1".into(),
            price_discounted: Some(cents(0.5)),
            price_regular: Some(cents(7.0)),
            price_has_discount: Some(false),
        },
        Game {
            title: "Game 2".into(),
            price_discounted: Some(cents(7.0)),
            price_regular: Some(cents(7.0)),
            price_has_discount: Some(false),
        },
    ]);

    let watched_games = vec![WatchedGame::new("Game 1")];

    // when
    let filtered_games = acceptable_games(&watched_games, games_provider);

    // then
    assert_eq!(filtered_games, vec![]);
}

#[test]
fn test_acceptable_games_with_games_with_discount_set_to_false() {
    // given
    let games_provider = provider_with_ok_result(vec![
        Game {
            title: "Game 1".into(),
            price_has_discount: Some(false),
            ..Game::default()
        },
        Game {
            title: "Game 2".into(),
            price_has_discount: Some(false),
            ..Game::default()
        },
    ]);

    let watched_games = vec![WatchedGame::new("Game 1")];

    // when
    let filtered_games = acceptable_games(&watched_games, games_provider);

    // then
    assert_eq!(filtered_games, vec![]);
}

#[test]
fn test_acceptable_games_with_games_without_discount_field() {
    // given
    let games_provider = provider_with_ok_result(vec![
        Game {
            title: "Game 1".into(),
            price_has_discount: None,
            ..Game::default()
        },
        Game {
            title: "Game 2".into(),
            price_has_discount: None,
            ..Game::default()
        },
    ]);

    let watched_games = vec![WatchedGame::new("Game 1")];

    // when
    let filtered_games = acceptable_games(&watched_games, games_provider);

    // then
    assert_eq!(filtered_games, vec![]);
}

#[test]
fn test_acceptable_games_when_provider_returns_error() {
    // given
    let games_provider = |_title: String| -> Result<Vec<Game>, String> {
        Err("Some error".to_string())
    };
    let watched_games = vec![WatchedGame::new("Game 1")];

    // when
    let filtered_games = acceptable_games(&watched_games, games_provider);

    // then
    assert_eq!(filtered_games, vec![]);
}

#[test]
fn test_game_default() {
    // given
    let game = Game {
        title: "".into(),
        price_discounted: None,
        price_regular: None,
        price_has_discount: None,
    };

    // when
    let default = Game::default();

    // then
    assert_eq!(game, default);
}
