use speedrunapi::fetch::{classify, FetchOutcome};
use speedrunapi::project::Projection;
use speedrunapi::schema::ResourceKind;
use speedrunapi::types::LevelData as LevelView;
use speedrunapi::LevelData;

fn level_body() -> &'static str {
    r#"{"data":{"id":"495ggmwp","name":"Shrub Forest","weblink":"https://www.speedrun.com/pokemon_rumble_world/Shrub_Forest","rules":"Normal Mode: go fast.\r\n\r\nHard Mode: kill every Pokemon.","links":[{"rel":"self","uri":"https://www.speedrun.com/api/v1/levels/495ggmwp"},{"rel":"game","uri":"https://www.speedrun.com/api/v1/games/3dx2oz41"}]}}"#
}

fn project_level() -> Projection {
    match classify(ResourceKind::Level, 200, level_body()) {
        FetchOutcome::Success(p) => p,
        other => panic!("expected a projection, got {:?}", other),
    }
}

fn text_for(p: &Projection, key: &str) -> String {
    p.value_for(key).unwrap().text().unwrap().clone()
}

#[test]
fn level_fields() {
    let p = project_level();
    assert_eq!(text_for(&p, "id"), "495ggmwp");
    assert_eq!(text_for(&p, "name"), "Shrub Forest");
    assert_eq!(
        text_for(&p, "weblink"),
        "https://www.speedrun.com/pokemon_rumble_world/Shrub_Forest"
    );
}

#[test]
fn level_rules_collapsed() {
    let p = project_level();
    assert_eq!(
        text_for(&p, "rules"),
        "Normal Mode: go fast. Hard Mode: kill every Pokemon."
    );
}

#[test]
fn level_rules_scenario() {
    let body = r#"{"data":{"id":"i","name":"n","weblink":"w","rules":"A\r\n\r\nB","links":[]}}"#;
    let p = match classify(ResourceKind::Level, 200, body) {
        FetchOutcome::Success(p) => p,
        other => panic!("expected a projection, got {:?}", other),
    };
    assert_eq!(text_for(&p, "rules"), "A B");
}

#[test]
fn level_links() {
    let p = project_level();
    let links = p.links();
    assert_eq!(links[0].0, "self");
    assert_eq!(links[0].1, "https://www.speedrun.com/api/v1/levels/495ggmwp");
    assert_eq!(links[1].0, "game");
}

#[test]
fn level_typed_view() {
    let p = project_level();
    let view = LevelView::from_projection(&p).unwrap();
    assert_eq!(view.data.id, "495ggmwp");
    assert_eq!(view.data.name, "Shrub Forest");
    assert_eq!(
        view.data.weblink,
        "https://www.speedrun.com/pokemon_rumble_world/Shrub_Forest"
    );
    assert_eq!(view.data.links.len(), 2);
    assert_eq!(view.data.links[0].rel, "self");
}

#[test]
fn level_url_building() {
    let d = LevelData::new("495ggmwp");
    assert_eq!(d.url(), "https://www.speedrun.com/api/v1/levels/495ggmwp");
    let d = d.categories();
    assert_eq!(
        d.url(),
        "https://www.speedrun.com/api/v1/levels/495ggmwp/categories"
    );
}
