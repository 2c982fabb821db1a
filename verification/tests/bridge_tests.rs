use local_kg_bridge::BridgeError;
use local_kg_bridge::ConfigSources;
use local_kg_bridge::ErrorCapture;
use local_kg_bridge::LocalKGBridge;

fn no_sources() -> ConfigSources {
    ConfigSources {
        config_file: None,
        env_language: None,
        env_framework: None,
        env_local_kg_db: None,
        env_central_kg_url: None,
        env_python_cmd: None,
    }
}

#[test]
fn escape_plain_string_is_unchanged() {
    assert_eq!(LocalKGBridge::escape_python("hello world"), "hello world");
}

#[test]
fn escape_empty_string() {
    assert_eq!(LocalKGBridge::escape_python(""), "");
}

#[test]
fn escape_backslash_is_doubled() {
    assert_eq!(LocalKGBridge::escape_python("a\\b"), "a\\\\b");
}

#[test]
fn escape_single_quote() {
    assert_eq!(LocalKGBridge::escape_python("it's"), "it\\'s");
}

#[test]
fn escape_newline() {
    assert_eq!(LocalKGBridge::escape_python("line1\nline2"), "line1\\nline2");
}

#[test]
fn escape_all_specials_in_order() {
    // Backslashes are doubled before quotes and newlines introduce any,
    // so a backslash followed by a literal n stays distinct from a newline.
    assert_eq!(LocalKGBridge::escape_python("a\\b'c\nd"), "a\\\\b\\'c\\nd");
    assert_eq!(LocalKGBridge::escape_python("\\n"), "\\\\n");
    assert_eq!(LocalKGBridge::escape_python("\\'"), "\\\\\\'");
}

#[test]
fn config_file_takes_priority_over_environment() {
    let sources = ConfigSources {
        config_file: Some(
            "{\"language\": \"go\", \"python_command\": \"python3\", \"ignored_key\": 7}"
                .to_string(),
        ),
        env_language: Some("java".to_string()),
        env_python_cmd: Some("py-env".to_string()),
        ..no_sources()
    };
    let config = LocalKGBridge::load_config(&sources).unwrap();
    assert_eq!(config.language.as_deref(), Some("go"));
    assert_eq!(config.python_command.as_deref(), Some("python3"));
    assert_eq!(config.framework, None);
    assert_eq!(config.local_kg_db, None);
    assert_eq!(config.auto_sync, None);
}

#[test]
fn malformed_config_file_is_a_hard_error() {
    let sources = ConfigSources {
        config_file: Some("{not valid json".to_string()),
        env_language: Some("java".to_string()),
        ..no_sources()
    };
    match LocalKGBridge::load_config(&sources) {
        Err(BridgeError::ConfigError(_)) => {}
        other => panic!("expected ConfigError, got {:?}", other),
    }
}

#[test]
fn empty_config_file_object_leaves_every_field_unset() {
    let sources = ConfigSources {
        config_file: Some("{}".to_string()),
        env_language: Some("java".to_string()),
        ..no_sources()
    };
    let config = LocalKGBridge::load_config(&sources).unwrap();
    assert_eq!(config.language, None);
    assert_eq!(config.local_kg_db, None);
    assert_eq!(config.python_command, None);
    assert_eq!(config.auto_sync, None);
    // The bridge then falls back to the built-in effective values.
    let bridge = LocalKGBridge::new(None, &sources).unwrap();
    assert_eq!(bridge.db_path, "local_kg/nebula_ide_local.db");
    assert_eq!(bridge.python_cmd, "python");
}

#[test]
fn wrongly_shaped_config_file_is_a_hard_error() {
    let sources = ConfigSources {
        config_file: Some("{\"language\": 5}".to_string()),
        ..no_sources()
    };
    assert!(matches!(
        LocalKGBridge::load_config(&sources),
        Err(BridgeError::ConfigError(_))
    ));
    let list = ConfigSources {
        config_file: Some("[1, 2]".to_string()),
        ..no_sources()
    };
    assert!(matches!(
        LocalKGBridge::load_config(&list),
        Err(BridgeError::ConfigError(_))
    ));
}

#[test]
fn null_config_fields_count_as_absent() {
    let sources = ConfigSources {
        config_file: Some("{\"language\": \"go\", \"framework\": null}".to_string()),
        ..no_sources()
    };
    let config = LocalKGBridge::load_config(&sources).unwrap();
    assert_eq!(config.language.as_deref(), Some("go"));
    assert_eq!(config.framework, None);
}

#[test]
fn environment_tier_used_when_no_file() {
    let sources = ConfigSources {
        config_file: None,
        env_language: Some("typescript".to_string()),
        env_local_kg_db: Some("env.db".to_string()),
        ..no_sources()
    };
    let config = LocalKGBridge::load_config(&sources).unwrap();
    assert_eq!(config.language.as_deref(), Some("typescript"));
    assert_eq!(config.local_kg_db.as_deref(), Some("env.db"));
    assert_eq!(config.framework, None);
    assert_eq!(config.auto_sync, None);
}

#[test]
fn defaults_used_when_no_file_and_no_language_variable() {
    let sources = ConfigSources {
        // Without the language variable the whole environment tier is skipped.
        env_local_kg_db: Some("env.db".to_string()),
        ..no_sources()
    };
    let config = LocalKGBridge::load_config(&sources).unwrap();
    assert_eq!(config.language.as_deref(), Some("rust"));
    assert_eq!(config.local_kg_db.as_deref(), Some("local_kg/nebula_ide_local.db"));
    assert_eq!(config.python_command.as_deref(), Some("python"));
    assert_eq!(config.auto_sync, Some(true));
}

#[test]
fn new_prefers_explicit_db_path() {
    let bridge = LocalKGBridge::new(Some("override.db"), &no_sources()).unwrap();
    assert_eq!(bridge.db_path, "override.db");
    assert_eq!(bridge.python_cmd, "python");
}

#[test]
fn new_takes_path_and_command_from_config() {
    let sources = ConfigSources {
        config_file: Some(
            "{\"local_kg_db\": \"from_file.db\", \"python_command\": \"python3\"}".to_string(),
        ),
        ..no_sources()
    };
    let bridge = LocalKGBridge::new(None, &sources).unwrap();
    assert_eq!(bridge.db_path, "from_file.db");
    assert_eq!(bridge.python_cmd, "python3");
}

#[test]
fn new_propagates_config_error() {
    let sources = ConfigSources {
        config_file: Some("oops".to_string()),
        ..no_sources()
    };
    assert!(matches!(
        LocalKGBridge::new(None, &sources),
        Err(BridgeError::ConfigError(_))
    ));
}

#[test]
fn successful_output_has_trailing_whitespace_trimmed() {
    let r = LocalKGBridge::interpret_process_output(true, "pattern-42\n", "");
    assert_eq!(r.unwrap(), "pattern-42");
}

#[test]
fn successful_output_keeps_leading_whitespace() {
    // Only trailing whitespace is removed: what the engine printed before
    // the identifier is part of the output.
    let r = LocalKGBridge::interpret_process_output(true, "  pattern-42\n", "");
    assert_eq!(r.unwrap(), "  pattern-42");
}

#[test]
fn failed_process_surfaces_stderr_verbatim() {
    let r = LocalKGBridge::interpret_process_output(false, "", "boom");
    match r {
        Err(BridgeError::ExternalProcessError(m)) => {
            assert!(m.contains("boom"));
            assert_eq!(m, "Python process failed: boom");
        }
        _ => panic!("expected ExternalProcessError"),
    }
}

#[test]
fn decode_patterns_one_record() {
    let text = "[{\"id\":\"p1\",\"error_signature\":\"NPE\",\"error_category\":\"runtime\",\
                \"language\":\"java\",\"severity\":\"high\",\"description\":null,\
                \"occurrence_count\":3,\"first_seen\":\"2024-01-01\",\"last_seen\":\"2024-02-01\",\
                \"solution_count\":1}]";
    let patterns = local_kg_bridge::patterns::decode_patterns(text).unwrap();
    assert_eq!(patterns.len(), 1);
    let p = &patterns[0];
    assert_eq!(p.id, "p1");
    assert_eq!(p.error_signature, "NPE");
    assert_eq!(p.error_category, "runtime");
    assert_eq!(p.language, "java");
    assert_eq!(p.severity, "high");
    assert_eq!(p.description, None);
    assert_eq!(p.occurrence_count, 3);
    assert_eq!(p.first_seen, "2024-01-01");
    assert_eq!(p.last_seen, "2024-02-01");
    assert_eq!(p.solution_count, 1);
}

#[test]
fn decode_patterns_empty_list() {
    let patterns = local_kg_bridge::patterns::decode_patterns("[]").unwrap();
    assert!(patterns.is_empty());
}

#[test]
fn decode_patterns_with_description() {
    let text = "[{\"id\":\"p2\",\"error_signature\":\"E0308\",\"error_category\":\"compile\",\
                \"language\":\"rust\",\"severity\":\"low\",\"description\":\"mismatched types\",\
                \"occurrence_count\":1,\"first_seen\":\"a\",\"last_seen\":\"b\",\
                \"solution_count\":0}]";
    let patterns = local_kg_bridge::patterns::decode_patterns(text).unwrap();
    assert_eq!(patterns[0].description.as_deref(), Some("mismatched types"));
}

#[test]
fn decode_patterns_malformed_json_is_decode_error() {
    match local_kg_bridge::patterns::decode_patterns("not json") {
        Err(BridgeError::DecodeError(m)) => {
            // The parser's own diagnostic is carried along.
            assert!(m.starts_with("search output is not valid JSON: "));
            assert!(m.len() > "search output is not valid JSON: ".len());
        }
        other => panic!("expected DecodeError, got {:?}", other),
    }
}

#[test]
fn decode_patterns_non_list_is_decode_error() {
    assert!(matches!(
        local_kg_bridge::patterns::decode_patterns("{\"id\":\"p1\"}"),
        Err(BridgeError::DecodeError(_))
    ));
}

#[test]
fn decode_patterns_bad_record_is_decode_error() {
    let text = "[{\"id\":1,\"error_signature\":\"NPE\",\"error_category\":\"runtime\",\
                \"language\":\"java\",\"severity\":\"high\",\"description\":null,\
                \"occurrence_count\":3,\"first_seen\":\"a\",\"last_seen\":\"b\",\
                \"solution_count\":1}]";
    assert!(matches!(
        local_kg_bridge::patterns::decode_patterns(text),
        Err(BridgeError::DecodeError(_))
    ));
}

#[test]
fn decode_summary_reads_totals_and_carries_breakdowns() {
    let text = "{\"total_patterns\":2,\"total_solutions\":5,\
                \"languages\":{\"rust\":2},\"top_errors\":[{\"sig\":\"NPE\",\"count\":3}]}";
    let summary = local_kg_bridge::patterns::decode_summary(text).unwrap();
    assert_eq!(summary.total_patterns, 2);
    assert_eq!(summary.total_solutions, 5);
    assert_eq!(summary.languages.get("rust").and_then(|v| v.as_i64()), Some(2));
    assert_eq!(summary.top_errors.len(), 1);
    assert_eq!(
        summary.top_errors[0].get("count").and_then(|v| v.as_i64()),
        Some(3)
    );
}

#[test]
fn decode_summary_malformed_json_is_decode_error() {
    assert!(matches!(
        local_kg_bridge::patterns::decode_summary("["),
        Err(BridgeError::DecodeError(_))
    ));
}

#[test]
fn decode_summary_missing_key_is_decode_error() {
    assert!(matches!(
        local_kg_bridge::patterns::decode_summary("{\"total_patterns\":2}"),
        Err(BridgeError::DecodeError(_))
    ));
}

#[test]
fn capture_script_embeds_escaped_arguments() {
    let bridge = LocalKGBridge::new(Some("kg.db"), &no_sources()).unwrap();
    let script = bridge.capture_error_script("it's\nbad", "Compile'Error", "rust", "high");
    let expected = "\nimport sys\nsys.path.insert(0, '.')\nfrom local_kg.local_kg import get_local_kg\n\nkg = get_local_kg('kg.db')\npattern_id = kg.capture_error(\n    error_signature='it\\'s\\nbad',\n    error_category='Compile\\'Error',\n    language='rust',\n    severity='high'\n)\nprint(pattern_id)\n";
    assert_eq!(script, expected);
}

#[test]
fn search_script_embeds_query_and_limit() {
    let bridge = LocalKGBridge::new(Some("kg.db"), &no_sources()).unwrap();
    let script = bridge.search_patterns_script("null pointer", 5);
    let expected = "\nimport sys\nimport json\nsys.path.insert(0, '.')\nfrom local_kg.local_kg import get_local_kg\n\nkg = get_local_kg('kg.db')\npatterns = kg.search_patterns('null pointer', 5)\nprint(json.dumps(patterns, default=str))\n";
    assert_eq!(script, expected);
}

#[test]
fn search_script_renders_multi_digit_limits() {
    let bridge = LocalKGBridge::new(Some("kg.db"), &no_sources()).unwrap();
    let script = bridge.search_patterns_script("q", 1024);
    assert!(script.contains("kg.search_patterns('q', 1024)"));
}

#[test]
fn search_script_renders_limit_zero() {
    let bridge = LocalKGBridge::new(Some("kg.db"), &no_sources()).unwrap();
    let script = bridge.search_patterns_script("q", 0);
    assert!(script.contains("kg.search_patterns('q', 0)"));
}

#[test]
fn interpret_output_trims_mixed_trailing_whitespace() {
    let r = LocalKGBridge::interpret_process_output(true, "id-1 \t\r\n", "");
    assert_eq!(r.unwrap(), "id-1");
}

#[test]
fn launch_failure_error_carries_reason() {
    match BridgeError::launch_failure("no such command") {
        BridgeError::ExternalProcessError(m) => {
            assert_eq!(m, "Python process failed to launch: no such command");
        }
        other => panic!("expected ExternalProcessError, got {:?}", other),
    }
}

#[test]
fn non_utf8_output_error_carries_reason() {
    match BridgeError::non_utf8_output("invalid byte at 3") {
        BridgeError::DecodeError(m) => {
            assert_eq!(m, "process output is not UTF-8: invalid byte at 3");
        }
        other => panic!("expected DecodeError, got {:?}", other),
    }
}

#[test]
fn add_solution_script_embeds_escaped_arguments() {
    let bridge = LocalKGBridge::new(Some("kg.db"), &no_sources()).unwrap();
    let script = bridge.add_solution_script("p1", "use Option::take()\nnot mem::replace", "high");
    let expected = "\nimport sys\nsys.path.insert(0, '.')\nfrom local_kg.local_kg import get_local_kg\n\nkg = get_local_kg('kg.db')\nsolution_id = kg.add_solution(\n    pattern_id='p1',\n    solution_text='use Option::take()\\nnot mem::replace',\n    effectiveness='high'\n)\nprint(solution_id)\n";
    assert_eq!(script, expected);
}

#[test]
fn summary_script_uses_storage_path() {
    let bridge = LocalKGBridge::new(Some("kg.db"), &no_sources()).unwrap();
    let script = bridge.get_summary_script();
    let expected = "\nimport sys\nimport json\nsys.path.insert(0, '.')\nfrom local_kg.local_kg import get_local_kg\n\nkg = get_local_kg('kg.db')\nsummary = kg.get_pattern_summary()\nprint(json.dumps(summary, default=str))\n";
    assert_eq!(script, expected);
}

#[test]
fn script_storage_path_is_escaped_too() {
    let bridge = LocalKGBridge::new(Some("odd'path.db"), &no_sources()).unwrap();
    let script = bridge.get_summary_script();
    assert!(script.contains("get_local_kg('odd\\'path.db')"));
}

#[test]
fn detached_client_copies_path_and_command() {
    let bridge = LocalKGBridge::new(Some("kg.db"), &no_sources()).unwrap();
    let clone = bridge.detached_client("rust");
    assert_eq!(clone.db_path, "kg.db");
    assert_eq!(clone.python_cmd, "python");
    assert_eq!(clone.config.language.as_deref(), Some("rust"));
    assert_eq!(clone.config.local_kg_db.as_deref(), Some("kg.db"));
    assert_eq!(clone.config.python_command.as_deref(), Some("python"));
    assert_eq!(clone.config.auto_sync, None);
    assert_eq!(clone.config.framework, None);
    assert_eq!(clone.config.central_kg_url, None);
}

#[test]
fn error_message_accessor_returns_carried_text() {
    let e = BridgeError::DecodeError("bad shape".to_string());
    assert_eq!(e.message(), "bad shape");
    let e = BridgeError::ExternalProcessError("no such command".to_string());
    assert_eq!(e.message(), "no such command");
    let e = BridgeError::ConfigError("bad file".to_string());
    assert_eq!(e.message(), "bad file");
}

#[test]
fn error_capture_holds_caller_fields() {
    let c = ErrorCapture {
        signature: "E0308: mismatched types".to_string(),
        category: "CompileError".to_string(),
        language: "rust".to_string(),
        severity: "high".to_string(),
        description: None,
    };
    let copy = c.clone();
    assert_eq!(copy.signature, "E0308: mismatched types");
    assert_eq!(copy.category, "CompileError");
    assert_eq!(copy.language, "rust");
    assert_eq!(copy.severity, "high");
    assert_eq!(copy.description, None);
}
