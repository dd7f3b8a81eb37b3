use log_engine::engine::Engine;

fn tags(names: &[&str]) -> Vec<String> {
    names.iter().map(|t| t.to_string()).collect()
}

fn log_level(e: &mut Engine, level: &str) -> Option<String> {
    let out = e.log(tags(&["db"]), "connection lost".to_string(), level.to_string(), 0)
        .expect("the engine accepts the record");
    out.trigger.map(|r| r.level)
}

#[test]
fn trigger_fires_for_matching_level_in_any_case() {
    let mut e = Engine::new();
    e.set_trigger_level(Some("WARNING".to_string()));
    assert_eq!(log_level(&mut e, "warning").as_deref(), Some("warning"));
    assert_eq!(log_level(&mut e, "Warning").as_deref(), Some("warning"));
    assert_eq!(log_level(&mut e, "WARNING").as_deref(), Some("warning"));
    assert_eq!(log_level(&mut e, "error"), None);
    assert_eq!(log_level(&mut e, "info"), None);
    assert_eq!(log_level(&mut e, "warn"), None);
}

#[test]
fn no_trigger_configured_never_fires() {
    let mut e = Engine::new();
    assert_eq!(log_level(&mut e, "error"), None);
    assert_eq!(log_level(&mut e, "info"), None);
}

#[test]
fn clearing_the_trigger_stops_it_firing() {
    let mut e = Engine::new();
    e.set_trigger_level(Some("error".to_string()));
    assert!(log_level(&mut e, "error").is_some());
    e.set_trigger_level(None);
    assert_eq!(log_level(&mut e, "error"), None);
}

#[test]
fn hook_record_carries_the_normalised_level() {
    // Configuring "error" and logging "ERROR" invokes the hook with a
    // record whose level reads "error".
    let mut e = Engine::new();
    e.set_trigger_level(Some("error".to_string()));
    let out = e.log(tags(&["db"]), "connection lost".to_string(), "ERROR".to_string(), 0)
        .expect("the engine accepts the record");
    let rec = out.trigger.expect("the matching severity fires the hook");
    assert_eq!(rec.level, "error");
    assert_eq!(rec.message, "connection lost");
    assert_eq!(rec.tags, vec!["db".to_string()]);
}
