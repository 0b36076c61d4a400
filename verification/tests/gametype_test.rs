use speedrunapi::fetch::{classify, FetchOutcome};
use speedrunapi::schema::ResourceKind;
use speedrunapi::types::GameTypeData as GameTypeView;
use speedrunapi::{gametype_data, gametype_id, gametype_name, GameTypeData};

fn gametype_body() -> &'static str {
    r#"{"data":{"id":"d91jd1ex","name":"Fangame","links":[{"rel":"self","uri":"https://www.speedrun.com/api/v1/gametypes/d91jd1ex"},{"rel":"games","uri":"https://www.speedrun.com/api/v1/games?gametype=d91jd1ex"}]}}"#
}

#[test]
fn gametype_flat_data() {
    let result = gametype_data(gametype_body()).unwrap();
    assert_eq!(
        result,
        [
            "Fangame",
            "d91jd1ex",
            "self",
            "games",
            "https://www.speedrun.com/api/v1/gametypes/d91jd1ex",
            "https://www.speedrun.com/api/v1/games?gametype=d91jd1ex"
        ]
    );
}

#[test]
fn gametype_name_value() {
    let result = gametype_name(gametype_body()).unwrap();
    assert_eq!(result, "Fangame");
}

#[test]
fn gametype_id_value() {
    let result = gametype_id(gametype_body()).unwrap();
    assert_eq!(result, "d91jd1ex");
}

#[test]
fn gametype_bad_body_reported() {
    assert!(gametype_data("not json at all").is_err());
    assert!(gametype_name(r#"{"data":{"id":"x"}}"#).is_err());
}

#[test]
fn gametype_typed_view() {
    let p = match classify(ResourceKind::GameType, 200, gametype_body()) {
        FetchOutcome::Success(p) => p,
        other => panic!("expected a projection, got {:?}", other),
    };
    let view = GameTypeView::from_projection(&p).unwrap();
    assert_eq!(view.data.name, "Fangame");
    assert_eq!(view.data.id, "d91jd1ex");
    assert_eq!(view.data.links.len(), 2);
}

#[test]
fn gametype_url_building() {
    let d = GameTypeData::new("Fangame");
    assert_eq!(d.url(), "https://www.speedrun.com/api/v1/gametypes/Fangame");
}
