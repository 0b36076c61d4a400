use speedrunapi::fetch::{classify, FetchOutcome};
use speedrunapi::guest_data;
use speedrunapi::guest_data::guest_url;
use speedrunapi::schema::ResourceKind;
use speedrunapi::types::GuestData as GuestView;

fn guest_body() -> &'static str {
    r#"{"data":{"name":"Alex","links":{"rel":"self","uri":"https://www.speedrun.com/api/v1/guests/Alex"}}}"#
}

#[test]
fn guest_flat_data() {
    let result = guest_data::guest_data(guest_body()).unwrap();
    assert_eq!(
        result,
        [
            "Alex",
            "self",
            "https://www.speedrun.com/api/v1/guests/Alex"
        ]
    );
}

#[test]
fn guest_bad_body_reported() {
    assert!(guest_data::guest_data("{}").is_err());
    assert!(guest_data::guest_data(r#"{"data":{"name":"Alex"}}"#).is_err());
}

#[test]
fn guest_typed_view() {
    let p = match classify(ResourceKind::Guest, 200, guest_body()) {
        FetchOutcome::Success(p) => p,
        other => panic!("expected a projection, got {:?}", other),
    };
    let view = GuestView::from_projection(&p).unwrap();
    assert_eq!(view.data.name, "Alex");
    assert_eq!(view.data.links.rel, "self");
    assert_eq!(
        view.data.links.uri,
        "https://www.speedrun.com/api/v1/guests/Alex"
    );
}

#[test]
fn guest_url_building() {
    assert_eq!(
        guest_url("Alex"),
        "https://www.speedrun.com/api/v1/guests/Alex"
    );
}
