use photofinish::config::parse_scenarios;
use photofinish::config::ConfigError;
use photofinish::config::Scenario;

fn find<'a>(scenarios: &'a [Scenario], label: &str) -> Option<&'a Scenario> {
    scenarios.iter().find(|s| s.label == label)
}

#[test]
fn parse_valid_two_blocks() {
    let text = "[smoke]\nfiles = [\"a.json\", \"b.json\"]\n\n[load]\nfiles = [\"big.json\"]\n";
    let scenarios = parse_scenarios(text.to_string()).unwrap();
    assert_eq!(scenarios.len(), 2);
    let smoke = find(&scenarios, "smoke").unwrap();
    assert_eq!(smoke.files, vec!["a.json".to_string(), "b.json".to_string()]);
    let load = find(&scenarios, "load").unwrap();
    assert_eq!(load.files, vec!["big.json".to_string()]);
}

#[test]
fn parse_preserves_file_order() {
    let text = "[s]\nfiles = [\"b\", \"a\", \"c\"]\n";
    let scenarios = parse_scenarios(text.to_string()).unwrap();
    assert_eq!(scenarios.len(), 1);
    assert_eq!(
        scenarios[0].files,
        vec!["b".to_string(), "a".to_string(), "c".to_string()]
    );
}

#[test]
fn parse_empty_document_yields_no_scenarios() {
    let scenarios = parse_scenarios(String::new()).unwrap();
    assert!(scenarios.is_empty());
}

#[test]
fn parse_empty_files_list() {
    let scenarios = parse_scenarios("[empty]\nfiles = []\n".to_string()).unwrap();
    assert_eq!(scenarios.len(), 1);
    assert_eq!(scenarios[0].label, "empty");
    assert!(scenarios[0].files.is_empty());
}

#[test]
fn parse_missing_files_field_fails() {
    let text = "[broken]\nother = 1\n";
    let r = parse_scenarios(text.to_string());
    assert_eq!(r.unwrap_err(), ConfigError::Malformed);
}

#[test]
fn parse_files_not_an_array_fails() {
    let text = "[broken]\nfiles = \"a.json\"\n";
    let r = parse_scenarios(text.to_string());
    assert_eq!(r.unwrap_err(), ConfigError::Malformed);
}

#[test]
fn parse_file_entry_not_a_string_fails() {
    let text = "[broken]\nfiles = [1, 2]\n";
    let r = parse_scenarios(text.to_string());
    assert_eq!(r.unwrap_err(), ConfigError::Malformed);
}

#[test]
fn parse_one_bad_block_fails_whole_parse() {
    let text = "[good]\nfiles = [\"a\"]\n\n[broken]\nother = 1\n";
    let r = parse_scenarios(text.to_string());
    assert_eq!(r.unwrap_err(), ConfigError::Malformed);
}

#[test]
fn parse_invalid_toml_fails() {
    let r = parse_scenarios("this is [[[ not toml".to_string());
    assert_eq!(r.unwrap_err(), ConfigError::Syntax);
}

#[test]
fn config_file_name_is_fixed_dotfile() {
    assert_eq!(photofinish::config::config_file_name(), ".photofinish.toml");
}

#[test]
fn config_error_line_carries_the_io_error() {
    let err = "No such file or directory (os error 2)".to_string();
    assert_eq!(
        photofinish::config::config_error_line(&err),
        "Error! Probably .photofinish.toml is missing\nNo such file or directory (os error 2)"
    );
}
