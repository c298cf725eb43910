use cargo_blinc::colors::Led;
use cargo_blinc::config::{Config, ConfigError};

fn tasks_and_colors() -> String {
    r#"
            [[tasks]]
            cmd = "cargo"
            args = ["check"]

            [[tasks]]
            cmd = "cargo"
            args = ["test"]
        "#
    .to_string()
}

#[test]
fn test_load_config_with_valid_config() -> Result<(), ConfigError> {
    let config_content = r#"
            [[tasks]]
            cmd = "cargo"
            args = ["check"]

            [[tasks]]
            cmd = "cargo"
            args = ["test"]

            [colors]
            pending = ["blue", "blank"]
            failure = "red"
            success = "green"
        "#
    .to_string();

    let c = Config::read(&config_content)?;

    assert_eq!(c.pending()[0], Led::Blue, "Testing transition");
    assert_eq!(c.pending()[1], Led::Blank, "Testing transition");
    assert_eq!(
        c.tasks().first().unwrap().command(),
        "cargo",
        "Testing first task command"
    );
    assert_eq!(
        c.tasks().first().unwrap().args(),
        vec!["check"],
        "Testing first task arguments"
    );
    assert_eq!(c.failure(), &Led::Red, "Testing failure color");
    assert_eq!(c.success(), &Led::Green, "Testing success color");

    Ok(())
}

#[test]
#[should_panic]
fn test_tasks_config_with_lack_of_cmd_key() {
    let config_content = r#"
            [[tasks]]
            args = ["check"]

            [[tasks]]
            cmd = "cargo"
            args = ["test"]

            [colors]
            pending = ["blue", "blank"]
            failure = "red"
            success = "green"
        "#
    .to_string();
    Config::read(&config_content).unwrap();
}

#[test]
#[should_panic]
fn test_tasks_config_with_empty_tasks_key() {
    let config_content = r#"
            [[tasks]]

            [colors]
            pending = ["blue", "blank"]
            failure = "red"
            success = "green"
        "#
    .to_string();
    Config::read(&config_content).unwrap();
}

#[test]
#[should_panic]
fn test_tasks_config_with_lack_of_tasks() {
    let config_content = r#"
            [colors]
            pending = ["blue", "blank"]
            failure = "red"
            success = "green"
        "#
    .to_string();
    Config::read(&config_content).unwrap();
}

#[test]
fn test_tasks_config_with_lack_of_optional_args_key() -> Result<(), ConfigError> {
    let config_content = r#"
            [[tasks]]
            cmd = "cargo"

            [[tasks]]
            cmd = "cargo"

            [colors]
            pending = ["blue", "blank"]
            failure = "red"
            success = "green"
        "#
    .to_string();
    let c = Config::read(&config_content)?;

    assert_eq!(c.pending()[0], Led::Blue, "Testing transition");
    assert_eq!(c.pending()[1], Led::Blank, "Testing transition");
    assert_eq!(
        c.tasks().first().unwrap().command(),
        "cargo",
        "Testing first task command"
    );
    assert_eq!(
        c.tasks().first().unwrap().args(),
        Vec::<String>::new(),
        "Testing first task arguments"
    );
    assert_eq!(c.failure(), &Led::Red, "Testing failure color");
    assert_eq!(c.success(), &Led::Green, "Testing success color");

    Ok(())
}

#[test]
#[should_panic]
fn test_colors_config_with_lack_of_pending_key() {
    let config_content = tasks_and_colors()
        + r#"
            [colors]
            failure = "red"
            success = "green"
        "#;
    Config::read(&config_content).unwrap();
}

#[test]
#[should_panic]
fn test_colors_config_with_lack_of_failure_key() {
    let config_content = tasks_and_colors()
        + r#"
            [colors]
            pending = ["blue", "blank"]
            success = "green"
        "#;
    Config::read(&config_content).unwrap();
}

#[test]
#[should_panic]
fn test_colors_config_with_lack_of_success_key() {
    let config_content = tasks_and_colors()
        + r#"
            [colors]
            pending = ["blue", "blank"]
            failure = "red"
        "#;
    Config::read(&config_content).unwrap();
}

#[test]
#[should_panic]
fn test_colors_config_with_lack_of_colors_key() {
    let config_content = tasks_and_colors();
    Config::read(&config_content).unwrap();
}

#[test]
fn unknown_pending_color_is_refused() {
    let config_content = tasks_and_colors()
        + r#"
            [colors]
            pending = ["scarlet"]
            failure = "red"
            success = "green"
        "#;
    assert_eq!(
        Config::read(&config_content).unwrap_err(),
        ConfigError::UnknownColor("scarlet".to_string())
    );
}

#[test]
fn unknown_final_color_is_refused() {
    let r = Config::from_names(
        Vec::new(),
        vec!["blue".to_string()],
        "red".to_string(),
        "gold".to_string(),
        None,
    );
    assert_eq!(r.unwrap_err(), ConfigError::UnknownColor("gold".to_string()));
}

#[test]
fn malformed_text_is_a_syntax_error() {
    assert_eq!(Config::read("[[tasks").unwrap_err(), ConfigError::Syntax);
}

#[test]
fn wrong_kind_of_value_names_its_key() {
    let config_content = tasks_and_colors()
        + r#"
            [colors]
            pending = "blue"
            failure = "red"
            success = "green"
        "#;
    assert_eq!(
        Config::read(&config_content).unwrap_err(),
        ConfigError::Invalid("colors.pending".to_string())
    );
}

#[test]
fn env_table_is_read() {
    let config_content = tasks_and_colors()
        + r#"
            [colors]
            pending = ["blue", "blank"]
            failure = "red"
            success = "green"

            [env]
            API_KEY = "10"
        "#;
    let c = Config::read(&config_content).unwrap();
    assert_eq!(
        c.env().clone(),
        Some(vec![("API_KEY".to_string(), "10".to_string())])
    );
}

#[test]
fn missing_env_table_is_none() {
    let config_content = tasks_and_colors()
        + r#"
            [colors]
            pending = ["white"]
            failure = "red"
            success = "green"
        "#;
    let c = Config::read(&config_content).unwrap();
    assert_eq!(c.env().clone(), None);
    assert_eq!(c.pending().to_vec(), vec![Led::White]);
}

#[test]
fn default_config_without_file() {
    let c = Config::get(None).unwrap();
    assert_eq!(c.tasks().len(), 2);
    assert_eq!(c.tasks()[0].command(), "cargo");
    assert_eq!(c.tasks()[0].args(), vec!["check"]);
    assert_eq!(c.tasks()[1].args(), vec!["test"]);
    assert_eq!(c.pending().to_vec(), vec![Led::Blue, Led::Blank]);
    assert_eq!(c.failure(), &Led::Red);
    assert_eq!(c.success(), &Led::Green);
    assert_eq!(c.env().clone(), Some(Vec::new()));
}

#[test]
fn config_from_file_text() {
    let config_content = tasks_and_colors()
        + r#"
            [colors]
            pending = ["green"]
            failure = "blank"
            success = "white"
        "#;
    let c = Config::get(Some(&config_content)).unwrap();
    assert_eq!(c.pending().to_vec(), vec![Led::Green]);
    assert_eq!(c.failure(), &Led::Blank);
    assert_eq!(c.success(), &Led::White);
}

use cargo_blinc::document::Node;

fn text(s: &str) -> Node {
    Node::Text(s.to_string())
}

fn entry(k: &str, v: Node) -> (String, Node) {
    (k.to_string(), v)
}

fn colors_table(pending: &[&str]) -> (String, Node) {
    entry(
        "colors",
        Node::Table(vec![
            entry("failure", text("red")),
            entry("pending", Node::List(pending.iter().map(|p| text(p)).collect())),
            entry("success", text("green")),
        ]),
    )
}

fn one_task() -> (String, Node) {
    entry(
        "tasks",
        Node::List(vec![Node::Table(vec![
            entry("args", Node::List(vec![text("-l")])),
            entry("cmd", text("ls")),
        ])]),
    )
}

#[test]
fn document_is_read_in_order() {
    let root = vec![colors_table(&["red", "blue", "red"]), one_task()];
    let c = Config::from_document(&root).unwrap();
    assert_eq!(c.pending().to_vec(), vec![Led::Red, Led::Blue, Led::Red]);
    assert_eq!(c.tasks()[0].command(), "ls");
    assert_eq!(c.tasks()[0].args(), vec!["-l"]);
    assert_eq!(c.env().clone(), None);
}

#[test]
fn document_errors_name_the_key() {
    assert_eq!(
        Config::from_document(&vec![colors_table(&["blue"])]).unwrap_err(),
        ConfigError::Invalid("tasks".to_string())
    );
    assert_eq!(
        Config::from_document(&vec![one_task()]).unwrap_err(),
        ConfigError::Invalid("colors".to_string())
    );
    let no_cmd = entry("tasks", Node::List(vec![Node::Table(vec![entry("args", Node::List(vec![]))])]));
    assert_eq!(
        Config::from_document(&vec![colors_table(&["blue"]), no_cmd]).unwrap_err(),
        ConfigError::Invalid("tasks.cmd".to_string())
    );
    let bad_args = entry(
        "tasks",
        Node::List(vec![Node::Table(vec![entry("args", Node::Other), entry("cmd", text("ls"))])]),
    );
    assert_eq!(
        Config::from_document(&vec![colors_table(&["blue"]), bad_args]).unwrap_err(),
        ConfigError::Invalid("tasks.args".to_string())
    );
    let pending_not_text = vec![
        entry(
            "colors",
            Node::Table(vec![
                entry("failure", text("red")),
                entry("pending", Node::List(vec![Node::Other])),
                entry("success", text("green")),
            ]),
        ),
        one_task(),
    ];
    assert_eq!(
        Config::from_document(&pending_not_text).unwrap_err(),
        ConfigError::Invalid("colors.pending".to_string())
    );
    let bad_env = vec![colors_table(&["blue"]), entry("env", Node::Table(vec![entry("A", Node::Other)])), one_task()];
    assert_eq!(
        Config::from_document(&bad_env).unwrap_err(),
        ConfigError::Invalid("env".to_string())
    );
}

#[test]
fn document_unknown_color() {
    let root = vec![colors_table(&["blue", "scarlet"]), one_task()];
    assert_eq!(
        Config::from_document(&root).unwrap_err(),
        ConfigError::UnknownColor("scarlet".to_string())
    );
}

#[test]
fn document_env_is_kept() {
    let root = vec![
        colors_table(&["blue"]),
        entry("env", Node::Table(vec![entry("A", text("1")), entry("B", text("2"))])),
        one_task(),
    ];
    let c = Config::from_document(&root).unwrap();
    assert_eq!(
        c.env().clone(),
        Some(vec![("A".to_string(), "1".to_string()), ("B".to_string(), "2".to_string())])
    );
}

#[test]
fn variable_set_twice_is_refused() {
    let r = Config::from_names(
        Vec::new(),
        vec!["blue".to_string()],
        "red".to_string(),
        "green".to_string(),
        Some(vec![
            ("A".to_string(), "1".to_string()),
            ("B".to_string(), "2".to_string()),
            ("A".to_string(), "3".to_string()),
        ]),
    );
    assert_eq!(r.unwrap_err(), ConfigError::DuplicateVariable("A".to_string()));
}

#[test]
fn pending_order_and_repeats_kept_from_text() {
    let config_content = tasks_and_colors()
        + r#"
            [colors]
            pending = ["red", "blue", "red"]
            failure = "red"
            success = "green"
        "#;
    let c = Config::read(&config_content).unwrap();
    assert_eq!(c.pending().to_vec(), vec![Led::Red, Led::Blue, Led::Red]);
    assert_eq!(c.tasks().len(), 2);
    assert_eq!(c.tasks()[1].args(), vec!["test"]);
}

#[test]
fn get_with_bad_text_does_not_fall_back() {
    assert_eq!(Config::get(Some("[[tasks")).unwrap_err(), ConfigError::Syntax);
}
