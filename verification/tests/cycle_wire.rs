use medic::cycle::{failure_leaf, run_cycle, screen_report, startup_placeholder, ProbeOutcome};
use medic::json::to_json;
use medic::status::StatusColor;
use medic::tree::ServiceStatus;

fn leaf(name: &str, color: StatusColor) -> ServiceStatus {
    ServiceStatus::new(name.to_string(), color, None, None)
}

fn ok(name: &str, tree: ServiceStatus) -> ProbeOutcome {
    ProbeOutcome { name: name.to_string(), result: Ok(tree) }
}

fn failed(name: &str, msg: &str) -> ProbeOutcome {
    ProbeOutcome { name: name.to_string(), result: Err(msg.to_string()) }
}

#[test]
fn three_probes_publish_red_root() {
    let outcomes = vec![
        ok("db", leaf("db", StatusColor::Green)),
        ok("cache", leaf("cache", StatusColor::Orange)),
        ok("auth", leaf("auth", StatusColor::Red)),
    ];
    let root = run_cycle("medic".to_string(), &outcomes);
    assert_eq!(root.status, StatusColor::Red);
    assert_eq!(root.subservices.len(), 3);
    assert_eq!(root.subservices[0].name, "db");
    assert_eq!(root.subservices[1].name, "cache");
    assert_eq!(root.subservices[2].name, "auth");
    assert_eq!(
        to_json(&root),
        "{\"name\":\"medic\",\"status\":\"RED\",\"subservices\":[\
         {\"name\":\"db\",\"status\":\"GREEN\"},\
         {\"name\":\"cache\",\"status\":\"ORANGE\"},\
         {\"name\":\"auth\",\"status\":\"RED\"}]}"
    );
}

#[test]
fn failed_probe_becomes_red_leaf_and_cycle_completes() {
    let outcomes = vec![
        ok("db", leaf("db", StatusColor::Green)),
        failed("flaky", "connection timed out"),
    ];
    let root = run_cycle("medic".to_string(), &outcomes);
    assert_eq!(root.status, StatusColor::Red);
    assert_eq!(root.subservices.len(), 2);
    let substitute = &root.subservices[1];
    assert_eq!(substitute.name, "flaky");
    assert_eq!(substitute.status, StatusColor::Red);
    assert_eq!(substitute.description.as_deref(), Some("connection timed out"));
    assert!(substitute.subservices.is_empty());
}

#[test]
fn failure_leaf_description_never_empty() {
    let leaf = failure_leaf("probe9".to_string(), "".to_string());
    assert_eq!(leaf.status, StatusColor::Red);
    assert_eq!(leaf.description.as_deref(), Some("probe failed"));
}

#[test]
fn zero_probes_publish_plain_green_root() {
    let outcomes: Vec<ProbeOutcome> = Vec::new();
    let root = run_cycle("medic".to_string(), &outcomes);
    assert_eq!(root.status, StatusColor::Green);
    assert!(root.subservices.is_empty());
    assert!(root.description.is_none());
    assert_eq!(to_json(&root), "{\"name\":\"medic\",\"status\":\"GREEN\"}");
}

#[test]
fn placeholder_is_orange_and_described() {
    let placeholder = startup_placeholder("medic".to_string());
    assert_eq!(placeholder.status, StatusColor::Orange);
    assert_eq!(placeholder.description.as_deref(), Some("warming up"));
    assert!(placeholder.subservices.is_empty());
    assert_eq!(
        to_json(&placeholder),
        "{\"name\":\"medic\",\"status\":\"ORANGE\",\"description\":\"warming up\"}"
    );
}

#[test]
fn screen_passes_well_formed_report() {
    let outcome = screen_report("db".to_string(), Ok(leaf("db", StatusColor::Green)));
    assert_eq!(outcome.name, "db");
    assert_eq!(outcome.result, Ok(leaf("db", StatusColor::Green)));
}

#[test]
fn screen_rejects_tree_with_empty_name() {
    let outcome = screen_report("db".to_string(), Ok(leaf("", StatusColor::Green)));
    assert_eq!(outcome.result, Err("malformed status report".to_string()));
}

#[test]
fn screen_rejects_nested_empty_name() {
    let bad = ServiceStatus::new(
        "db".to_string(),
        StatusColor::Green,
        None,
        Some(vec![leaf("", StatusColor::Green)]),
    );
    let outcome = screen_report("db".to_string(), Ok(bad));
    assert_eq!(outcome.result, Err("malformed status report".to_string()));
}

#[test]
fn screen_passes_failure_through() {
    let outcome = screen_report("db".to_string(), Err("boom".to_string()));
    assert_eq!(outcome.result, Err("boom".to_string()));
}

#[test]
fn deep_clone_preserves_tree() {
    let tree = ServiceStatus::new(
        "root".to_string(),
        StatusColor::Orange,
        Some("latency high".to_string()),
        Some(vec![
            leaf("db", StatusColor::Green),
            ServiceStatus::new(
                "api".to_string(),
                StatusColor::Orange,
                None,
                Some(vec![leaf("auth", StatusColor::Red)]),
            ),
        ]),
    );
    assert_eq!(tree.clone(), tree);
}

#[test]
fn json_escapes_specials_like_serde() {
    let tree = ServiceStatus::new(
        "a\"b\\c\nd\u{1}".to_string(),
        StatusColor::Green,
        Some("tab\there\r".to_string()),
        None,
    );
    let body = to_json(&tree);
    assert_eq!(
        body,
        "{\"name\":\"a\\\"b\\\\c\\nd\\u0001\",\"status\":\"GREEN\",\
         \"description\":\"tab\\there\\r\"}"
    );
    let parsed: serde_json::Value = serde_json::from_str(&body).unwrap();
    assert_eq!(parsed["name"].as_str(), Some("a\"b\\c\nd\u{1}"));
    assert_eq!(parsed["description"].as_str(), Some("tab\there\r"));
    assert_eq!(parsed["status"].as_str(), Some("GREEN"));
}

#[test]
fn json_omits_empty_description() {
    let tree = ServiceStatus::new(
        "db".to_string(),
        StatusColor::Green,
        Some("".to_string()),
        None,
    );
    assert_eq!(to_json(&tree), "{\"name\":\"db\",\"status\":\"GREEN\"}");
}

#[test]
fn json_nested_matches_serde_reading() {
    let outcomes = vec![
        ok("db", leaf("db", StatusColor::Green)),
        failed("flaky", "boom"),
    ];
    let root = run_cycle("medic".to_string(), &outcomes);
    let parsed: serde_json::Value = serde_json::from_str(&to_json(&root)).unwrap();
    assert_eq!(parsed["status"].as_str(), Some("RED"));
    let subs = parsed["subservices"].as_array().unwrap();
    assert_eq!(subs.len(), 2);
    assert_eq!(subs[0]["name"].as_str(), Some("db"));
    assert!(subs[0].get("description").is_none());
    assert_eq!(subs[1]["description"].as_str(), Some("boom"));
}
