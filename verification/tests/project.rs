use devspace::project::{
    choose_image_source, document_of, get_project_name, normalize_config, parse_config_document,
    sanitize, within_nesting, Config, ConfigError, ImageSource, Project, CONFIG_DIR, CONFIG_FILE,
    MAX_NESTING,
};
use std::path::PathBuf;

/// Reads a declaration out of a parsed document, key by key.
fn read_config(value: &serde_json::Value) -> Config {
    let text = |key: &str| value.get(key).and_then(|v| v.as_str()).map(String::from);
    Config {
        name: text("name"),
        image: text("image"),
        dockerfile: text("dockerFile"),
        image_source: ImageSource::default(),
        post_create_command: value.get("postCreateCommand").and_then(|v| v.as_array()).map(|a| {
            a.iter().filter_map(|token| token.as_str().map(String::from)).collect()
        }),
    }
}

/// A declaration from the text of a declaration file.
fn config_from(json: &str) -> Result<Config, ConfigError> {
    let value = parse_config_document(json)?;
    normalize_config(read_config(&value))
}

fn joined(parts: &[&str]) -> String {
    let mut path = PathBuf::new();
    for part in parts {
        path = path.join(part);
    }
    path.display().to_string()
}

#[test]
fn project_test_config() {
    let json = r#"
        {
            "name": "test",
            "dockerFile": "Dockerfile",
            "postCreateCommand": ["echo", "hello"]
        }"#;

    let config = config_from(json).unwrap();
    assert_eq!(config.name.unwrap(), "test");
    assert_eq!(
        config.image_source,
        ImageSource::Dockerfile(
            PathBuf::from(CONFIG_DIR)
                .join("Dockerfile")
                .display()
                .to_string()
        )
    );
    assert_eq!(config.post_create_command.unwrap(), ["echo", "hello"]);
}

#[test]
fn test_config_none() {
    let json = r#"
        {
            //test
            "image": "test image",
            "postCreateCommand": ["echo", "hello"],
        }"#;

    let config = config_from(json).unwrap();
    assert_eq!(
        config.image_source,
        ImageSource::Image("test image".to_string())
    );
    assert_eq!(config.name, None);
}

#[test]
#[should_panic]
fn test_config_invalid_format() {
    let json = r#"
        {
        f
            "dockerFile": "Dockerfile",
            "postCreateCommand": ["echo", "hello"],
        }"#;

    config_from(json).unwrap();
}

#[test]
fn test_validate_config() {
    let json = r#"
        {
            "image": "test",
            "dockerFile": "Dockerfile",
            "postCreateCommand": ["echo", "hello"],
        }"#;
    let config = normalize_config(config_from(json).unwrap()).unwrap();
    assert_eq!(config.image_source, ImageSource::Image("test".to_string()));
}

#[test]
#[should_panic]
fn test_invalidate_config_without_dockfile_image() {
    let json = r#"
        {
            "postCreateCommand": ["echo", "hello"],
        }"#;
    normalize_config(config_from(json).unwrap()).unwrap();
}

#[test]
fn test_project_name_from_path() {
    let json = r#"
        {
            "postCreateCommand": ["echo", "hello"],
            "image": "test"
        }"#;
    let root = joined(&["/tmp", "devspace_test", "xxxx xxx"]);
    let project = Project::new(&root, config_from(json).unwrap()).unwrap();
    assert_eq!(project.name, "xxxx_xxx");
}

#[test]
fn test_project_name_from_config() {
    let json = r#"
        {
            "name": "taskcommander dev",
            "postCreateCommand": ["echo", "hello"],
            "image": "test"
        }"#;

    let root = joined(&["/tmp", "devspace_test", "xxxx"]);
    let project = Project::new(&root, config_from(json).unwrap()).unwrap();
    assert_eq!(project.name, "taskcommander_dev");
}

#[test]
fn project_paths_lie_below_the_root() {
    let config = config_from(r#"{ "image": "test" }"#).unwrap();
    let root = joined(&["/tmp", "devspace_test", "xxxx"]);
    let project = Project::new(&root, config.clone()).unwrap();
    assert_eq!(project.root, root);
    assert_eq!(project.config_dir, joined(&[&root, CONFIG_DIR]));
    assert_eq!(project.config_file, joined(&[&root, CONFIG_DIR, CONFIG_FILE]));
    assert_ne!(project.config_dir, project.root);
    assert_ne!(project.config_file, project.config_dir);
    assert_eq!(project.config, config);
    assert_eq!(CONFIG_DIR, ".devcontainer");
    assert_eq!(CONFIG_FILE, "devcontainer.json");
}

#[test]
fn project_without_any_name_is_refused() {
    let config = config_from(r#"{ "image": "test" }"#).unwrap();
    for root in ["/", "", "..", "/tmp/devspace_test/.."] {
        assert!(matches!(get_project_name(root), Err(ConfigError::InvalidPath)));
        assert!(matches!(Project::new(root, config.clone()), Err(ConfigError::InvalidPath)));
    }
    let named = config_from(r#"{ "name": "a b", "image": "test" }"#).unwrap();
    assert_eq!(Project::new("/", named).unwrap().name, "a_b");
    assert!(matches!(
        Project::from_parts(String::new(), String::new(), String::new(), None, config),
        Err(ConfigError::InvalidPath)
    ));
}

#[test]
fn project_is_named_after_its_directory() {
    assert_eq!(get_project_name("/tmp/devspace_test/xxxx xxx").unwrap(), "xxxx xxx");
    assert_eq!(get_project_name("/tmp/devspace_test/xxxx/").unwrap(), "xxxx");
    assert_eq!(get_project_name("xxxx").unwrap(), "xxxx");
    let config = config_from(r#"{ "image": "test" }"#).unwrap();
    let project = Project::from_parts(
        "r".to_string(),
        "d".to_string(),
        "f".to_string(),
        Some("my dev box".to_string()),
        config,
    )
    .unwrap();
    assert_eq!(project.name, "my_dev_box");
    assert_eq!((project.root.as_str(), project.config_dir.as_str()), ("r", "d"));
    assert_eq!(project.config_file, "f");
}

#[test]
fn spaces_become_underscores() {
    assert_eq!(sanitize("taskcommander dev"), "taskcommander_dev");
    assert_eq!(sanitize("  a  b "), "__a__b_");
    assert_eq!(sanitize("plain"), "plain");
    assert_eq!(sanitize(""), "");
    assert_eq!(sanitize("tab\tstays"), "tab\tstays");
    assert_eq!(sanitize("naïve café"), "naïve_café");
}

#[test]
fn image_wins_over_dockerfile() {
    let image = Some("img".to_string());
    let path = Some("dir/Dockerfile".to_string());
    assert_eq!(
        choose_image_source(&image, path.clone()).unwrap(),
        ImageSource::Image("img".to_string())
    );
    assert_eq!(
        choose_image_source(&image, None).unwrap(),
        ImageSource::Image("img".to_string())
    );
    assert_eq!(
        choose_image_source(&None, path).unwrap(),
        ImageSource::Dockerfile("dir/Dockerfile".to_string())
    );
    assert!(matches!(choose_image_source(&None, None), Err(ConfigError::MissingImageSource)));
}

#[test]
fn normalizing_keeps_the_rest_of_the_declaration() {
    let declared = Config {
        name: Some("n".to_string()),
        image: None,
        dockerfile: Some("Dockerfile.dev".to_string()),
        image_source: ImageSource::default(),
        post_create_command: Some(vec!["make".to_string()]),
    };
    let normal = normalize_config(declared.clone()).unwrap();
    assert_eq!(
        normal.image_source,
        ImageSource::Dockerfile(joined(&[CONFIG_DIR, "Dockerfile.dev"]))
    );
    assert_ne!(normal.image_source, ImageSource::Dockerfile("Dockerfile.dev".to_string()));
    assert_eq!(normal, Config { image_source: normal.image_source.clone(), ..declared });
    assert_eq!(ImageSource::default(), ImageSource::Image(String::new()));
}

#[test]
fn declaration_without_a_source_is_refused() {
    let failure = config_from(r#"{ "name": "x" }"#).unwrap_err();
    assert!(matches!(failure, ConfigError::MissingImageSource));
    assert_eq!(failure.message(), "invalid config, dockerfile or image not specified");
    assert_eq!(ConfigError::InvalidPath.message(), "invalid path");
}

#[test]
fn empty_declaration_is_refused() {
    for text in ["", "   \n", "// nothing here\n", "/* nor here */"] {
        let failure = parse_config_document(text).unwrap_err();
        assert!(matches!(failure, ConfigError::EmptyDocument));
        assert_eq!(failure.message(), "invalid config");
    }
    assert!(matches!(document_of(Ok(None)), Err(ConfigError::EmptyDocument)));
}

#[test]
fn malformed_declaration_is_refused_with_its_cause() {
    let failure = parse_config_document("[][]").unwrap_err();
    assert_eq!(failure.message(), "config parse failed");
    match failure {
        ConfigError::ParseFailed(cause) => assert_eq!(
            cause.to_string(),
            "Text cannot contain more than one JSON value on line 1 column 3"
        ),
        other => panic!("not a parse failure: {:?}", other),
    }
}

#[test]
fn declaration_is_parsed_with_comments_and_trailing_commas() {
    let value = parse_config_document(
        r#"{
            // which image
            "image": "alpine", /* the small one */
            "postCreateCommand": ["echo", "hello",],
        }"#,
    )
    .unwrap();
    let mut expected = serde_json::Map::new();
    expected.insert("image".to_string(), serde_json::Value::String("alpine".to_string()));
    expected.insert(
        "postCreateCommand".to_string(),
        serde_json::Value::Array(vec![
            serde_json::Value::String("echo".to_string()),
            serde_json::Value::String("hello".to_string()),
        ]),
    );
    assert_eq!(value, serde_json::Value::Object(expected));
    assert_eq!(
        document_of(Ok(Some(serde_json::Value::Bool(true)))).unwrap(),
        serde_json::Value::Bool(true)
    );
}

#[test]
fn declaration_nested_to_the_limit_is_parsed() {
    assert_eq!(MAX_NESTING, 128);
    let text = format!("{}{}", "[".repeat(MAX_NESTING), "]".repeat(MAX_NESTING));
    assert!(within_nesting(&text));
    let mut value = parse_config_document(&text).unwrap();
    let mut depth = 0;
    while let serde_json::Value::Array(mut inner) = value {
        depth += 1;
        match inner.pop() {
            Some(next) => value = next,
            None => break,
        }
    }
    assert_eq!(depth, MAX_NESTING);

    let objects = format!("{}1{}", "{\"a\":".repeat(MAX_NESTING), "}".repeat(MAX_NESTING));
    assert!(parse_config_document(&objects).is_ok());
}

#[test]
fn declaration_nested_beyond_the_limit_is_refused_unparsed() {
    let text = format!("{}{}", "[".repeat(MAX_NESTING + 1), "]".repeat(MAX_NESTING + 1));
    assert!(!within_nesting(&text));
    let failure = parse_config_document(&text).unwrap_err();
    assert!(matches!(failure, ConfigError::TooDeeplyNested));
    assert_eq!(failure.message(), "config nested too deeply");

    let huge = "[".repeat(1_000_000);
    assert!(matches!(parse_config_document(&huge), Err(ConfigError::TooDeeplyNested)));
    let mixed = format!("{}{}", "{".repeat(100), "[".repeat(29));
    assert!(matches!(parse_config_document(&mixed), Err(ConfigError::TooDeeplyNested)));
}

#[test]
fn openings_are_counted_wherever_they_stand() {
    assert!(within_nesting(""));
    assert!(within_nesting("no brackets at all"));
    assert!(within_nesting(&"]".repeat(10_000)));
    assert!(within_nesting(&"}".repeat(10_000)));
    assert!(within_nesting(&"(<".repeat(10_000)));
    let flat = format!("[{}]", "[],".repeat(MAX_NESTING - 1));
    assert!(within_nesting(&flat));
    assert!(parse_config_document(&flat).is_ok());
    let in_a_string = format!("\"{}\"", "[".repeat(MAX_NESTING + 1));
    assert!(!within_nesting(&in_a_string));
    assert!(matches!(parse_config_document(&in_a_string), Err(ConfigError::TooDeeplyNested)));
    let in_a_comment = format!("// {}\n1", "{".repeat(MAX_NESTING + 1));
    assert!(matches!(parse_config_document(&in_a_comment), Err(ConfigError::TooDeeplyNested)));
    let wide = format!("é{}ü", "[".repeat(MAX_NESTING));
    assert!(within_nesting(&wide));
}
