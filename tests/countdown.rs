use voice_relay::{Timer, mvp_name, object_literal, respawn_report};

fn timer(id: &str, date: &str) -> Timer {
    Timer { id: id.to_string(), date: date.to_string() }
}

#[test]
fn object_literal_spans_first_to_last_brace() {
    let script = "var countdown = {'enable': true, 'elements': [{'id': '1'}]}; start();";
    assert_eq!(
        object_literal(script),
        Some("{\"enable\": true, \"elements\": [{\"id\": \"1\"}]}".to_string())
    );
}

#[test]
fn object_literal_missing_braces() {
    assert_eq!(object_literal("no object here"), None);
    assert_eq!(object_literal("only { open"), None);
    assert_eq!(object_literal("only } close"), None);
    assert_eq!(object_literal("} reversed {"), None);
    assert_eq!(object_literal(""), None);
}

#[test]
fn tracked_mvp_names() {
    assert_eq!(mvp_name("1"), Some("Balam (unholy)"));
    assert_eq!(mvp_name("2"), Some("Shax (unholy)"));
    assert_eq!(mvp_name("3"), Some("Raum (unholy)"));
    assert_eq!(mvp_name("4"), Some("Paimon (unholy)"));
    assert_eq!(mvp_name("5"), Some("Apollyon (unholy)"));
    assert_eq!(mvp_name("6"), None);
    assert_eq!(mvp_name("11"), None);
    assert_eq!(mvp_name(""), None);
}

#[test]
fn respawn_report_lists_tracked_timers() {
    let timers = vec![timer("2", "10:00"), timer("9", "11:00"), timer("5", "12:30")];
    assert_eq!(
        respawn_report(&timers),
        "MVPs respawn timers: \nShax (unholy)\t10:00\nApollyon (unholy)\t12:30\n"
    );
    assert_eq!(respawn_report(&Vec::new()), "MVPs respawn timers: \n");
}
