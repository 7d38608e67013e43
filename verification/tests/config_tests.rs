use authflow::config::{
    get_github_client_id, get_github_client_secret, get_worker_api_key, get_worker_api_url,
    parse_env_content, ConfigParseError, EnvConfig,
};

fn create_expected_config(id: &str, secret: &str, url: &str, key: &str) -> EnvConfig {
    EnvConfig {
        github_client_id: id.to_string(),
        github_client_secret: secret.to_string(),
        worker_api_url: url.to_string(),
        worker_api_key: key.to_string(),
    }
}

#[test]
fn test_parse_valid_env_content_no_quotes() {
    let content = "
GITHUB_CLIENT_ID=id123
GITHUB_CLIENT_SECRET=secretABC
WORKER_API_URL=http://localhost:8787
WORKER_API_KEY=workerkeyXYZ
# a comment
        ";
    let expected = create_expected_config(
        "id123",
        "secretABC",
        "http://localhost:8787",
        "workerkeyXYZ",
    );
    assert_eq!(
        parse_env_content(content).unwrap(),
        expected,
        "valid content without quotes failed to parse"
    );
}

#[test]
fn test_parse_valid_env_content_with_quotes() {
    let content = r#"
GITHUB_CLIENT_ID="id123"
GITHUB_CLIENT_SECRET='secretABC'
WORKER_API_URL="http://localhost:8787"
WORKER_API_KEY = " worker_key_with_spaces_inside " # trimmed, then unquoted
EXTRA_VAR=some_other_value
        "#;
    // Whitespace inside the quotes is preserved: the value is first trimmed,
    // then the surrounding quotes are stripped.
    let expected = create_expected_config(
        "id123",
        "secretABC",
        "http://localhost:8787",
        " worker_key_with_spaces_inside ",
    );
    assert_eq!(
        parse_env_content(content).unwrap(),
        expected,
        "valid content with quotes failed to parse"
    );
}

#[test]
fn test_parse_env_content_strips_outer_whitespace_then_quotes() {
    let content = r#"
GITHUB_CLIENT_ID = "  id123  "
GITHUB_CLIENT_SECRET = ' secretABC '
WORKER_API_URL = http://localhost:8787
WORKER_API_KEY =    workerkeyXYZ
        "#;
    let expected = create_expected_config(
        "  id123  ",
        " secretABC ",
        "http://localhost:8787",
        "workerkeyXYZ",
    );
    assert_eq!(
        parse_env_content(content).unwrap(),
        expected,
        "outer whitespace and quotes handled badly"
    );
}

#[test]
fn test_parse_missing_required_key() {
    let content = "
GITHUB_CLIENT_SECRET=secretABC
WORKER_API_URL=http://localhost:8787
WORKER_API_KEY=workerkeyXYZ
        ";
    match parse_env_content(content) {
        Err(ConfigParseError::MissingKey(key)) => {
            assert_eq!(key, "GITHUB_CLIENT_ID", "wrong missing key reported")
        }
        Ok(_) => panic!("should have failed for the missing key"),
        Err(e) => panic!("unexpected error kind: {:?}", e),
    }
}

#[test]
fn test_parse_empty_value_for_required_key() {
    let content = "
GITHUB_CLIENT_ID=
GITHUB_CLIENT_SECRET=secretABC
WORKER_API_URL=http://localhost:8787
WORKER_API_KEY=workerkeyXYZ
        ";
    match parse_env_content(content) {
        Err(ConfigParseError::EmptyValue(key)) => {
            assert_eq!(key, "GITHUB_CLIENT_ID", "wrong empty-value key reported")
        }
        Ok(_) => panic!("should have failed for the empty value"),
        Err(e) => panic!("unexpected error kind: {:?}", e),
    }
}

#[test]
fn test_parse_empty_value_with_quotes_for_required_key() {
    let content = r#"
GITHUB_CLIENT_ID=""
GITHUB_CLIENT_SECRET=secretABC
WORKER_API_URL=http://localhost:8787
WORKER_API_KEY=workerkeyXYZ
        "#;
    // Stripping the quotes leaves an empty string, which the emptiness check
    // then rejects.
    match parse_env_content(content) {
        Err(ConfigParseError::EmptyValue(key)) => {
            assert_eq!(key, "GITHUB_CLIENT_ID", "quoted empty value handled badly")
        }
        Ok(_) => panic!("should have failed because the unquoted value is empty"),
        Err(e) => panic!("unexpected error kind: {:?}", e),
    }
}

#[test]
fn test_parse_malformed_line() {
    let content = "
GITHUB_CLIENT_ID id123_no_equals_sign
GITHUB_CLIENT_SECRET=secretABC
WORKER_API_URL=http://localhost:8787
WORKER_API_KEY=workerkeyXYZ
        ";
    match parse_env_content(content) {
        Err(ConfigParseError::MalformedLine(line_num, line_content)) => {
            assert_eq!(line_num, 2, "wrong line number reported");
            assert_eq!(
                line_content, "GITHUB_CLIENT_ID id123_no_equals_sign",
                "wrong line content reported"
            );
        }
        Ok(_) => panic!("should have failed for the malformed line"),
        Err(e) => panic!("unexpected error kind: {:?}", e),
    }
}

#[test]
fn test_parse_empty_content() {
    let content = "";
    match parse_env_content(content) {
        Err(ConfigParseError::MissingKey(key)) => {
            assert_eq!(key, "GITHUB_CLIENT_ID", "empty content should report a missing key")
        }
        Ok(_) => panic!("should have failed for the missing key"),
        Err(e) => panic!("unexpected error kind: {:?}", e),
    }
}

#[test]
fn test_parse_only_comments_and_empty_lines() {
    let content = "
# a comment
\n   \n
# another comment
        ";
    match parse_env_content(content) {
        Err(ConfigParseError::MissingKey(key)) => {
            assert_eq!(
                key, "GITHUB_CLIENT_ID",
                "only comments and blank lines should report a missing key"
            )
        }
        Ok(_) => panic!("should have failed for the missing key"),
        Err(e) => panic!("unexpected error kind: {:?}", e),
    }
}

#[test]
fn test_config_accessor_functions_after_successful_parse() {
    let content = "
GITHUB_CLIENT_ID=id123
GITHUB_CLIENT_SECRET=secretABC
WORKER_API_URL=http://localhost:8787
WORKER_API_KEY=workerkeyXYZ
        ";
    let cfg = parse_env_content(content).unwrap();
    assert!(
        !get_github_client_id(&cfg).is_empty(),
        "GITHUB_CLIENT_ID should be loaded and non-empty"
    );
    assert!(
        !get_github_client_secret(&cfg).is_empty(),
        "GITHUB_CLIENT_SECRET should be loaded and non-empty"
    );
    assert!(
        !get_worker_api_url(&cfg).is_empty(),
        "WORKER_API_URL should be loaded and non-empty"
    );
    assert!(
        !get_worker_api_key(&cfg).is_empty(),
        "WORKER_API_KEY should be loaded and non-empty"
    );
}

#[test]
fn test_parse_error_messages() {
    let e = ConfigParseError::MissingKey("GITHUB_CLIENT_ID".to_string());
    assert_eq!(e.message(), "missing required key: GITHUB_CLIENT_ID");
    let e = ConfigParseError::EmptyValue("WORKER_API_KEY".to_string());
    assert_eq!(e.message(), "the value of key WORKER_API_KEY must not be empty");
    let e = ConfigParseError::MalformedLine(2, "NO_EQUALS here".to_string());
    assert_eq!(e.message(), "cannot parse line 2 (missing '='?): NO_EQUALS here");
}
