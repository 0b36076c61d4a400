use speedrunapi::fetch::{classify, FetchOutcome};
use speedrunapi::project::Projection;
use speedrunapi::schema::ResourceKind;
use speedrunapi::translate::user_id_of;
use speedrunapi::UserData;

fn user_body() -> &'static str {
    r#"{"data":{"id":"jonryvl8","names":{"international":"fishin_rod","japanese":null},"supporterAnimation":false,"pronouns":"He/Him","weblink":"https://www.speedrun.com/user/fishin_rod","role":"user","signup":"2022-12-20T01:16:42Z","location":{"country":{"code":"us","names":{"international":"United States","japanese":null}},"region":{"code":"us/co","names":{"international":"Colorado, USA","japanese":null}}},"twitch":null,"hitbox":null,"youtube":null,"twitter":null,"speedrunslive":null,"assets":{"icon":{"uri":null},"supporterIcon":null,"image":{"uri":null}},"links":[{"rel":"self","uri":"https://www.speedrun.com/api/v1/users/jonryvl8"},{"rel":"runs","uri":"https://www.speedrun.com/api/v1/runs?user=jonryvl8"},{"rel":"games","uri":"https://www.speedrun.com/api/v1/games?moderator=jonryvl8"},{"rel":"personal-bests","uri":"https://www.speedrun.com/api/v1/users/jonryvl8/personal-bests"}]}}"#
}

fn project_user() -> Projection {
    match classify(ResourceKind::User, 200, user_body()) {
        FetchOutcome::Success(p) => p,
        other => panic!("expected a projection, got {:?}", other),
    }
}

fn text_for(p: &Projection, key: &str) -> String {
    p.value_for(key).unwrap().text().unwrap().clone()
}

#[test]
fn user_scenario() {
    let p = project_user();
    assert_eq!(text_for(&p, "id"), "jonryvl8");
    assert_eq!(text_for(&p, "name"), "fishin_rod");
    assert_eq!(text_for(&p, "role"), "user");
    assert_eq!(text_for(&p, "signup"), "2022-12-20 01:16:42");
    // Every absent social-link field reads as its default.
    for key in ["twitch", "hitbox", "youtube", "twitter", "speedrunslive"] {
        assert_eq!(text_for(&p, key), "None");
    }
}

#[test]
fn user_fields_in_order() {
    let p = project_user();
    assert_eq!(p.len(), 22);
    let expected = [
        "jonryvl8",
        "fishin_rod",
        "None",
        "false",
        "He/Him",
        "https://www.speedrun.com/user/fishin_rod",
        "user",
        "2022-12-20 01:16:42",
        "us/co",
        "Colorado, USA",
        "None",
        "us",
        "United States",
        "None",
        "None",
        "None",
        "None",
        "None",
        "None",
        "None",
        "None",
        "None",
    ];
    for (i, want) in expected.iter().enumerate() {
        assert_eq!(p.value_at(i).text().unwrap(), want);
    }
}

#[test]
fn user_defaults_verbatim() {
    // Optional fields that are absent (japanese name) or null (pronouns)
    // read as the declared default, verbatim.
    let body = r#"{"data":{"id":"x1","names":{"international":"someone"},"supporterAnimation":true,"pronouns":null,"weblink":"w","role":"user","signup":null,"location":{"country":{"code":"de","names":{"international":"Germany"}}},"assets":{"icon":{"uri":null},"image":{"uri":null}},"links":[]}}"#;
    let p = match classify(ResourceKind::User, 200, body) {
        FetchOutcome::Success(p) => p,
        other => panic!("expected a projection, got {:?}", other),
    };
    assert_eq!(text_for(&p, "japanese_name"), "None");
    assert_eq!(text_for(&p, "pronouns"), "None");
    assert_eq!(text_for(&p, "signup"), "None");
    assert_eq!(text_for(&p, "region"), "None");
    assert_eq!(text_for(&p, "region_code"), "None");
    assert_eq!(text_for(&p, "supporter_icon"), "None");
}

#[test]
fn user_empty_string_not_defaulted() {
    // A present-but-empty string is kept, never replaced by the default.
    let body = user_body().replace("\"pronouns\":\"He/Him\"", "\"pronouns\":\"\"");
    let p = match classify(ResourceKind::User, 200, &body) {
        FetchOutcome::Success(p) => p,
        other => panic!("expected a projection, got {:?}", other),
    };
    assert_eq!(text_for(&p, "pronouns"), "");
}

#[test]
fn user_bad_signup_is_malformed() {
    // A malformed timestamp is a hard failure, not defaulted, even though
    // the field is optional.
    let body = user_body().replace("2022-12-20T01:16:42Z", "around-christmas");
    match classify(ResourceKind::User, 200, &body) {
        FetchOutcome::MalformedResponse => {}
        other => panic!("expected a malformed response, got {:?}", other),
    }
}

#[test]
fn user_links_in_order() {
    let p = project_user();
    let links = p.links();
    let rels: Vec<&str> = links.iter().map(|l| l.0.as_str()).collect();
    assert_eq!(rels, ["self", "runs", "games", "personal-bests"]);
    assert_eq!(
        links[3].1,
        "https://www.speedrun.com/api/v1/users/jonryvl8/personal-bests"
    );
}

#[test]
fn user_projection_idempotent() {
    let p1 = project_user();
    let p2 = project_user();
    assert_eq!(p1.len(), p2.len());
    for i in 0..p1.len() {
        assert_eq!(
            p1.value_at(i).text().unwrap(),
            p2.value_at(i).text().unwrap()
        );
    }
    assert_eq!(p1.links(), p2.links());
    assert_eq!(p1.moderators(), p2.moderators());
}

#[test]
fn user_missing_required_is_malformed() {
    // No `role` member: a required field is absent.
    let body = r#"{"data":{"id":"x1","names":{"international":"someone"},"supporterAnimation":true,"weblink":"w","location":{"country":{"code":"de","names":{"international":"Germany"}}},"assets":{"icon":{"uri":null},"image":{"uri":null}},"links":[]}}"#;
    match classify(ResourceKind::User, 200, body) {
        FetchOutcome::MalformedResponse => {}
        other => panic!("expected a malformed response, got {:?}", other),
    }
}

#[test]
fn user_url_building() {
    let d = UserData::new("fishin_rod");
    assert_eq!(d.url(), "https://www.speedrun.com/api/v1/users/fishin_rod");
    assert_eq!(
        d.lookup_url(),
        "https://www.speedrun.com/api/v1/users?lookup=fishin_rod"
    );
    let d = d.personal_bests();
    assert_eq!(
        d.url(),
        "https://www.speedrun.com/api/v1/users/fishin_rod/personal_bests"
    );
}

#[test]
fn user_lookup_list_takes_first() {
    // A lookup by display name answers with a list of records.
    let body = format!("{{\"data\":[{}]}}", {
        let single = user_body();
        &single[8..single.len() - 1]
    });
    let p = match classify(ResourceKind::User, 200, &body) {
        FetchOutcome::Success(p) => p,
        other => panic!("expected a projection, got {:?}", other),
    };
    assert_eq!(p.value_at(0).text().unwrap(), "jonryvl8");
}

#[test]
fn user_id_translation() {
    assert_eq!(user_id_of(user_body()).unwrap(), "jonryvl8");
    assert!(user_id_of(r#"{"data":[]}"#).is_err());
    assert!(user_id_of("garbage").is_err());
}
