use slack_rs::config::config_buffer;

#[test]
fn buffer_ends_each_line() {
    let lines = vec!["[[workspaces]]".to_string(), "token = \"xoxp-1\"".to_string()];
    assert_eq!(config_buffer(&lines), "[[workspaces]]\ntoken = \"xoxp-1\"\n");
}

#[test]
fn buffer_of_no_line_is_empty() {
    assert_eq!(config_buffer(&Vec::new()), "");
}

#[test]
fn buffer_keeps_empty_lines() {
    let lines = vec![String::new(), "a".to_string(), String::new()];
    assert_eq!(config_buffer(&lines), "\na\n\n");
}
