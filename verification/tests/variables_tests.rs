use persona_exporter::configs::variables::substitute_variables;

fn vars() -> Vec<(String, String)> {
    vec![
        ("INFLUX_DB_TOKEN".to_string(), "abc123".to_string()),
        ("HOST".to_string(), "db".to_string()),
        ("HOST".to_string(), "shadowed".to_string()),
    ]
}

#[test]
fn set_variables_are_written_in() {
    let text = "value = \"Token ${INFLUX_DB_TOKEN}\"\nurl = \"http://${HOST}:8086\"";
    assert_eq!(
        substitute_variables(text, &vars()),
        "value = \"Token abc123\"\nurl = \"http://db:8086\""
    );
}

#[test]
fn unset_variables_and_open_references_stay() {
    assert_eq!(substitute_variables("a ${MISSING} b", &vars()), "a ${MISSING} b");
    assert_eq!(substitute_variables("a ${HOST", &vars()), "a ${HOST");
    assert_eq!(substitute_variables("$HOST and $", &vars()), "$HOST and $");
    assert_eq!(substitute_variables("${}", &vars()), "${}");
}

#[test]
fn plain_text_is_unchanged() {
    assert_eq!(substitute_variables("[agent]\nsend_metrics_interval = 5\n", &vars()), "[agent]\nsend_metrics_interval = 5\n");
    assert_eq!(substitute_variables("", &Vec::new()), "");
}

#[test]
fn values_are_not_scanned_again() {
    let vars = vec![("A".to_string(), "${B}".to_string()), ("B".to_string(), "x".to_string())];
    assert_eq!(substitute_variables("${A}${B}", &vars), "${B}x");
}
