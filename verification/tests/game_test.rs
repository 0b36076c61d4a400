use speedrunapi::fetch::{classify, FetchOutcome};
use speedrunapi::project::Projection;
use speedrunapi::schema::ResourceKind;
use speedrunapi::GameData;

fn game_body() -> &'static str {
    r#"{"data":{"id":"j1npme6p","names":{"international":"Minecraft: Java Edition","japanese":null,"twitch":"Minecraft"},"abbreviation":"mc","weblink":"https://www.speedrun.com/mc","discord":"https://discord.gg/jmdFn3C","released":2011,"release-date":"2011-11-18","ruleset":{"show-milliseconds":true,"require-verification":true,"require-video":true,"run-times":["realtime","ingame"],"default-time":"ingame","emulators-allowed":false},"romhack":false,"platforms":["8gej2n93"],"genres":["q4n60ln9","jp230326"],"developers":["k62d97ex"],"created":"2015-01-29T23:41:21Z","moderators":{"jonryvl8":"super-moderator","zx7gd1yx":"moderator"},"assets":{"logo":{"uri":"https://www.speedrun.com/themeasset/2wo6q4we/logo?v=413b0b3"},"cover-tiny":{"uri":null},"cover-small":{"uri":null},"cover-medium":{"uri":null},"cover-large":{"uri":null},"icon":{"uri":null},"trophy-1st":{"uri":null},"trophy-2nd":{"uri":null},"trophy-3rd":{"uri":null},"trophy-4th":null,"background":{"uri":null},"foreground":null},"links":[{"rel":"self","uri":"https://www.speedrun.com/api/v1/games/j1npme6p"}]}}"#
}

fn project_game() -> Projection {
    match classify(ResourceKind::Game, 200, game_body()) {
        FetchOutcome::Success(p) => p,
        other => panic!("expected a projection, got {:?}", other),
    }
}

fn text_for(p: &Projection, key: &str) -> String {
    p.value_for(key).unwrap().text().unwrap().clone()
}

#[test]
fn game_scenario() {
    let p = project_game();
    assert_eq!(text_for(&p, "id"), "j1npme6p");
    assert_eq!(text_for(&p, "abbreviation"), "mc");
    assert_eq!(text_for(&p, "weblink"), "https://www.speedrun.com/mc");
    assert_eq!(text_for(&p, "released"), "2011");
    assert_eq!(text_for(&p, "boosts"), "0");
}

#[test]
fn game_discord_and_names() {
    let p = project_game();
    assert_eq!(text_for(&p, "discord"), "https://discord.gg/jmdFn3C");
    assert_eq!(text_for(&p, "name"), "Minecraft: Java Edition");
    assert_eq!(text_for(&p, "japanese_name"), "None");
    assert_eq!(text_for(&p, "twitch_name"), "Minecraft");
    // The service writes the release date under another key, so the field
    // reads as its default.
    assert_eq!(text_for(&p, "release_date"), "None");
}

#[test]
fn game_creation() {
    let p = project_game();
    assert_eq!(text_for(&p, "created"), "2015-01-29 23:41:21");
}

#[test]
fn game_ruleset() {
    let p = project_game();
    assert_eq!(text_for(&p, "show_milliseconds"), "true");
    assert_eq!(text_for(&p, "require_verification"), "true");
    assert_eq!(text_for(&p, "require_video"), "true");
    assert_eq!(text_for(&p, "default_time"), "ingame");
    assert_eq!(text_for(&p, "emulators_allowed"), "false");
    assert_eq!(text_for(&p, "romhack"), "false");
    let runs = p.value_for("run_times").unwrap().items().unwrap();
    assert_eq!(*runs, ["realtime", "ingame"]);
}

#[test]
fn game_lists_and_defaults() {
    let p = project_game();
    let platforms = p.value_for("platforms").unwrap().items().unwrap();
    assert_eq!(*platforms, ["8gej2n93"]);
    let genres = p.value_for("genres").unwrap().items().unwrap();
    assert_eq!(*genres, ["q4n60ln9", "jp230326"]);
    // Absent optional lists read as the one-item default list.
    let gametypes = p.value_for("gametypes").unwrap().items().unwrap();
    assert_eq!(*gametypes, ["None"]);
}

#[test]
fn game_assets() {
    let p = project_game();
    assert_eq!(
        text_for(&p, "logo"),
        "https://www.speedrun.com/themeasset/2wo6q4we/logo?v=413b0b3"
    );
    // A present asset object with a null URI reads "None".
    assert_eq!(text_for(&p, "icon"), "None");
    // A null asset object reads the field's default: empty for the
    // trophy and foreground slots.
    assert_eq!(text_for(&p, "trophy_4th"), "");
    assert_eq!(text_for(&p, "foreground"), "");
}

#[test]
fn game_keyed_access_case_insensitive() {
    let p = project_game();
    let a = text_for(&p, "LOGO");
    let b = text_for(&p, "logo");
    let c = text_for(&p, "Logo");
    assert_eq!(a, b);
    assert_eq!(b, c);
}

#[test]
fn game_invalid_key_reported() {
    let p = project_game();
    assert!(p.value_for("no_such_field").is_err());
}

#[test]
fn game_moderators_stripped() {
    let p = project_game();
    let mods = p.moderators();
    assert_eq!(mods.len(), 2);
    assert_eq!(mods[0].0, "jonryvl8");
    assert_eq!(mods[0].1, "super-moderator");
    assert_eq!(mods[1].1, "moderator");
}

#[test]
fn game_moderator_marks_trimmed() {
    // A role that arrives with literal quote characters around it is
    // stripped on both ends.
    let body = game_body().replace(
        "\"jonryvl8\":\"super-moderator\"",
        "\"jonryvl8\":\"\\\"super-moderator\\\"\"",
    );
    let p = match classify(ResourceKind::Game, 200, &body) {
        FetchOutcome::Success(p) => p,
        other => panic!("expected a projection, got {:?}", other),
    };
    assert_eq!(p.moderators()[0].1, "super-moderator");
}

#[test]
fn game_bad_timestamp_is_malformed() {
    let body = game_body().replace("2015-01-29T23:41:21Z", "now-ish");
    match classify(ResourceKind::Game, 200, &body) {
        FetchOutcome::MalformedResponse => {}
        other => panic!("expected a malformed response, got {:?}", other),
    }
}

#[test]
fn game_wrong_shape_is_malformed() {
    let body = game_body().replace("\"released\":2011", "\"released\":\"2011\"");
    match classify(ResourceKind::Game, 200, &body) {
        FetchOutcome::MalformedResponse => {}
        other => panic!("expected a malformed response, got {:?}", other),
    }
}

#[test]
fn game_url_building() {
    let d = GameData::new("Mc");
    assert_eq!(d.url(), "https://www.speedrun.com/api/v1/games/Mc");
}
