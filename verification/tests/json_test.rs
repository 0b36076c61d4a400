use speedrunapi::project::{project, ProjectError};
use speedrunapi::schema::ResourceKind;
use speedrunapi::Json;

fn s(x: &str) -> String {
    x.to_string()
}

#[test]
fn member_lookup() {
    let j = Json::Obj(vec![(s("a"), Json::Int(1)), (s("b"), Json::Bool(true))]);
    assert!(matches!(j.get("a"), Some(Json::Int(1))));
    assert!(j.get("c").is_none());
    assert!(Json::Null.get("a").is_none());
}

#[test]
fn project_direct_gametype() {
    let record = Json::Obj(vec![
        (s("id"), Json::Str(s("d91jd1ex"))),
        (s("name"), Json::Str(s("Fangame"))),
        (s("links"), Json::Arr(vec![])),
    ]);
    let raw = Json::Obj(vec![(s("data"), record)]);
    let p = project(ResourceKind::GameType, &raw).unwrap();
    assert_eq!(p.len(), 2);
    assert_eq!(p.value_at(0).text().unwrap(), "Fangame");
    assert_eq!(p.value_at(1).text().unwrap(), "d91jd1ex");
    assert!(p.links().is_empty());
}

#[test]
fn project_reports_missing_required() {
    let raw = Json::Obj(vec![(s("data"), Json::Obj(vec![]))]);
    assert_eq!(
        project(ResourceKind::GameType, &raw).unwrap_err(),
        ProjectError::MissingField
    );
}

#[test]
fn project_reports_missing_data() {
    let raw = Json::Obj(vec![(s("stuff"), Json::Int(3))]);
    assert_eq!(
        project(ResourceKind::GameType, &raw).unwrap_err(),
        ProjectError::NoData
    );
}

#[test]
fn project_reports_empty_lookup() {
    let raw = Json::Obj(vec![(s("data"), Json::Arr(vec![]))]);
    assert_eq!(
        project(ResourceKind::GameType, &raw).unwrap_err(),
        ProjectError::EmptyData
    );
}
