use dsh_desktop::profile::{
    bundle_update_possible, default_profile_manifest, ensure_bundle, manifest_from_text,
    manifest_text, profile_manifest, resolve_from, Json, BUNDLE,
};

fn s(x: &str) -> Json {
    Json::Str(x.to_string())
}

fn obj(members: Vec<(&str, Json)>) -> Json {
    Json::Object(members.into_iter().map(|(k, v)| (k.to_string(), v)).collect())
}

fn member<'a>(j: &'a Json, key: &str) -> Option<&'a Json> {
    match j {
        Json::Object(ms) => ms.iter().find(|(k, _)| k == key).map(|(_, v)| v),
        _ => None,
    }
}

fn bundles(j: &Json) -> Vec<String> {
    let b = member(member(member(j, "dsh").unwrap(), "profile").unwrap(), "bundles").unwrap();
    match b {
        Json::Array(items) => items
            .iter()
            .map(|i| match i {
                Json::Str(x) => x.clone(),
                _ => "<other>".to_string(),
            })
            .collect(),
        _ => panic!("not an array"),
    }
}

#[test]
fn default_manifest_gets_plugin() {
    let m = default_profile_manifest();
    assert_eq!(bundles(&m), vec!["@deepseek-ai/dsh-base", "@deepseek-ai/dsh-web-app"]);
    assert!(bundle_update_possible(&m));
    let (r, changed) = ensure_bundle(m);
    assert!(changed);
    assert_eq!(bundles(&r), vec!["@deepseek-ai/dsh-base", "@deepseek-ai/dsh-web-app", BUNDLE]);
    assert!(matches!(member(&r, "name"), Some(Json::Str(n)) if n == "dsh-profile-web"));
    assert!(matches!(member(&r, "private"), Some(Json::Bool(true))));
}

#[test]
fn existing_bundles_are_kept_and_plugin_appended_once() {
    let m = obj(vec![
        ("name", s("mine")),
        ("dsh", obj(vec![("profile", obj(vec![("bundles", Json::Array(vec![s("a"), s("b")]))]))])),
    ]);
    let (r, changed) = ensure_bundle(m);
    assert!(changed);
    assert_eq!(bundles(&r), vec!["a", "b", BUNDLE]);
    assert!(matches!(member(&r, "name"), Some(Json::Str(n)) if n == "mine"));
    let (r2, changed2) = ensure_bundle(r);
    assert!(!changed2);
    assert_eq!(bundles(&r2), vec!["a", "b", BUNDLE]);
}

#[test]
fn missing_or_odd_bundles_become_default_list() {
    let m = obj(vec![("dsh", obj(vec![("profile", obj(vec![("bundles", s("x"))]))]))]);
    let (r, changed) = ensure_bundle(m);
    assert!(changed);
    assert_eq!(bundles(&r), vec!["@deepseek-ai/dsh-base", "@deepseek-ai/dsh-web-app", BUNDLE]);
    let (r, _) = ensure_bundle(Json::Null);
    assert_eq!(bundles(&r), vec!["@deepseek-ai/dsh-base", "@deepseek-ai/dsh-web-app", BUNDLE]);
    let (r, _) = ensure_bundle(obj(vec![("version", Json::Number("1.5".to_string()))]));
    assert!(matches!(member(&r, "version"), Some(Json::Number(n)) if n == "1.5"));
    assert_eq!(bundles(&r).len(), 3);
}

#[test]
fn non_object_levels_cannot_be_edited() {
    assert!(!bundle_update_possible(&obj(vec![("dsh", Json::Number("5".to_string()))])));
    assert!(!bundle_update_possible(&Json::Array(vec![])));
    assert!(!bundle_update_possible(&obj(vec![("dsh", obj(vec![("profile", Json::Bool(false))]))])));
    assert!(bundle_update_possible(&obj(vec![("dsh", Json::Null)])));
}

#[test]
fn manifest_source() {
    assert!(matches!(profile_manifest(Some(Json::Bool(true))), Json::Bool(true)));
    assert_eq!(bundles(&profile_manifest(None)).len(), 2);
}

#[test]
fn first_installed_candidate_wins() {
    let c = vec![
        ("/a/node_modules/p".to_string(), false),
        ("/node_modules/p".to_string(), true),
        ("/x".to_string(), true),
    ];
    assert_eq!(resolve_from(&c).as_deref(), Some("/node_modules/p"));
    assert_eq!(resolve_from(&vec![("/a".to_string(), false)]), None);
    assert_eq!(resolve_from(&vec![]), None);
}

#[test]
fn manifest_text_is_parsed_with_sorted_members() {
    let m = manifest_from_text(Some("{\"b\": 1.50, \"a\": [true, null]}"));
    match &m {
        Json::Object(ms) => {
            assert_eq!(ms.len(), 2);
            assert_eq!(ms[0].0, "a");
            assert!(matches!(&ms[0].1, Json::Array(v) if v.len() == 2
                && matches!(v[0], Json::Bool(true)) && matches!(v[1], Json::Null)));
            assert_eq!(ms[1].0, "b");
            assert!(matches!(&ms[1].1, Json::Number(n) if n == "1.5"));
        }
        _ => panic!("not an object"),
    }
}

#[test]
fn unreadable_or_broken_manifest_gives_default() {
    for m in [manifest_from_text(None), manifest_from_text(Some("{not json"))] {
        assert_eq!(bundles(&m), vec!["@deepseek-ai/dsh-base", "@deepseek-ai/dsh-web-app"]);
        assert!(matches!(member(&m, "name"), Some(Json::Str(n)) if n == "dsh-profile-web"));
    }
}

#[test]
fn manifest_is_written_pretty_with_trailing_newline() {
    let text = manifest_text(&default_profile_manifest());
    let expected = "{\n  \"dependencies\": {},\n  \"dsh\": {\n    \"profile\": {\n      \"bundles\": [\n        \"@deepseek-ai/dsh-base\",\n        \"@deepseek-ai/dsh-web-app\"\n      ]\n    }\n  },\n  \"name\": \"dsh-profile-web\",\n  \"private\": true\n}\n";
    assert_eq!(text, expected);
    let (m, _) = ensure_bundle(manifest_from_text(Some(&text)));
    assert_eq!(bundles(&m), vec!["@deepseek-ai/dsh-base", "@deepseek-ai/dsh-web-app", BUNDLE]);
}
