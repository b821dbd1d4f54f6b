//! The messages of the three error kinds.

use bevy_config_file::LoadConfigError;

fn yaml_error() -> serde_yaml::Error {
    serde_yaml::from_str::<i32>("[").unwrap_err()
}

fn json_error() -> serde_json::Error {
    serde_json::from_str::<serde_json::Value>("{\"value\": invalid json}").unwrap_err()
}

#[test]
fn yaml_message_has_label_and_diagnostic() {
    let detail = yaml_error().to_string();
    let error = LoadConfigError::Yaml(yaml_error());
    assert_eq!(error.message(), format!("YAML parsing error: {}", detail));
}

#[test]
fn json_message_has_label_and_diagnostic() {
    let detail = json_error().to_string();
    assert!(detail.contains("line 1"));
    let error = LoadConfigError::Json(json_error());
    assert_eq!(error.message(), format!("JSON parsing error: {}", detail));
}

#[test]
fn io_message_has_label_and_diagnostic() {
    let error = LoadConfigError::Io(std::io::Error::new(std::io::ErrorKind::NotFound, "no such file"));
    assert_eq!(error.message(), "IO error: no such file");
}

#[test]
fn message_with_puts_the_label_first() {
    let io = LoadConfigError::Io(std::io::Error::from(std::io::ErrorKind::NotFound));
    assert_eq!(io.message_with("gone"), "IO error: gone");
    assert_eq!(LoadConfigError::Yaml(yaml_error()).message_with(""), "YAML parsing error: ");
    assert_eq!(LoadConfigError::Json(json_error()).message_with("x y"), "JSON parsing error: x y");
}
