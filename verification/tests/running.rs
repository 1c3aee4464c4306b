use photofinish::config::Scenario;
use photofinish::run::after_read;
use photofinish::run::missing_scenario_line;
use photofinish::run::outcome_line;
use photofinish::run::report_lines;
use photofinish::run::select_scenario;
use photofinish::run::FileOutcome;

fn scenario(label: &str, files: &[&str]) -> Scenario {
    Scenario {
        label: label.to_string(),
        files: files.iter().map(|f| f.to_string()).collect(),
    }
}

#[test]
fn select_finds_exact_label() {
    let scenarios = vec![scenario("smoke", &["a"]), scenario("load", &["b"])];
    let s = select_scenario(&scenarios, &"load".to_string()).unwrap();
    assert_eq!(s.label, "load");
    assert_eq!(s.files, vec!["b".to_string()]);
}

#[test]
fn select_is_case_sensitive() {
    let scenarios = vec![scenario("smoke", &["a"])];
    assert!(select_scenario(&scenarios, &"Smoke".to_string()).is_none());
}

#[test]
fn select_missing_label_yields_none() {
    let scenarios = vec![scenario("smoke", &["a"])];
    assert!(select_scenario(&scenarios, &"other".to_string()).is_none());
}

#[test]
fn select_on_empty_set_yields_none() {
    let scenarios: Vec<Scenario> = Vec::new();
    assert!(select_scenario(&scenarios, &"smoke".to_string()).is_none());
}

#[test]
fn select_takes_first_of_equal_labels() {
    let scenarios = vec![scenario("twin", &["first"]), scenario("twin", &["second"])];
    let s = select_scenario(&scenarios, &"twin".to_string()).unwrap();
    assert_eq!(s.files, vec!["first".to_string()]);
}

#[test]
fn missing_scenario_line_is_exact() {
    assert_eq!(missing_scenario_line(), "Non-existing scenario!");
}

#[test]
fn outcome_lines_are_exact() {
    let file = "fixtures/a.json".to_string();
    assert_eq!(
        outcome_line(&file, FileOutcome::ReadFailed),
        "Couldn't read file: fixtures/a.json"
    );
    assert_eq!(
        outcome_line(&file, FileOutcome::Posted),
        "Successfully POSTed file: fixtures/a.json"
    );
    assert_eq!(
        outcome_line(&file, FileOutcome::PostFailed),
        "Error while POSTing fixture:, fixtures/a.json"
    );
}

#[test]
fn report_lines_keep_file_order_after_failure() {
    let files = vec!["A".to_string(), "B".to_string()];
    let outcomes = vec![FileOutcome::ReadFailed, FileOutcome::Posted];
    let lines = report_lines(&files, &outcomes);
    assert_eq!(
        lines,
        vec![
            "Couldn't read file: A".to_string(),
            "Successfully POSTed file: B".to_string(),
        ]
    );
}

#[test]
fn after_read_hands_content_to_the_post() {
    let r = after_read(&"B".to_string(), Some("payload".to_string()));
    assert_eq!(r, Ok("payload".to_string()));
}

#[test]
fn after_read_failure_reports_and_posts_nothing() {
    let r = after_read(&"A".to_string(), None);
    assert_eq!(r, Err("Couldn't read file: A".to_string()));
}

#[test]
fn report_lines_empty_run() {
    let lines = report_lines(&Vec::new(), &Vec::new());
    assert!(lines.is_empty());
}
