use speedrunapi::fetch::{classify, FetchOutcome};
use speedrunapi::schema::ResourceKind;

#[test]
fn not_found_status() {
    // A 404 yields the not-found outcome, never a parse error, whatever
    // the body holds.
    match classify(ResourceKind::User, 404, "anything") {
        FetchOutcome::NotFound => {}
        other => panic!("expected not-found, got {:?}", other),
    }
}

#[test]
fn empty_lookup_is_not_found() {
    // A name lookup that matched nothing answers with an empty list.
    match classify(ResourceKind::Game, 200, r#"{"data":[]}"#) {
        FetchOutcome::NotFound => {}
        other => panic!("expected not-found, got {:?}", other),
    }
}

#[test]
fn lookup_list_takes_first_record() {
    let body = r#"{"data":[{"id":"d91jd1ex","name":"Fangame","links":[]},{"id":"zzz","name":"Other","links":[]}]}"#;
    let p = match classify(ResourceKind::GameType, 200, body) {
        FetchOutcome::Success(p) => p,
        other => panic!("expected a projection, got {:?}", other),
    };
    assert_eq!(p.value_for("name").unwrap().text().unwrap(), "Fangame");
}

#[test]
fn unparsable_body_is_malformed() {
    match classify(ResourceKind::User, 200, "]][[") {
        FetchOutcome::MalformedResponse => {}
        other => panic!("expected a malformed response, got {:?}", other),
    }
}

#[test]
fn missing_data_member_is_malformed() {
    match classify(ResourceKind::User, 200, r#"{"stuff": 3}"#) {
        FetchOutcome::MalformedResponse => {}
        other => panic!("expected a malformed response, got {:?}", other),
    }
}
