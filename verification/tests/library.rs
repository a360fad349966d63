use configure_semantic_release_manifest::lookup::{
    check_file_extension, find_semantic_release_config, is_supported_file_type,
    is_unsupported_extension, is_unsupported_file_extension, supported_file_types, LookupError,
    LookupErrorKind,
};
use configure_semantic_release_manifest::{
    Error, JsonValue, ModifiedFlag, SemanticReleaseConfiguration, SemanticReleaseManifest,
    SemanticReleasePluginConfiguration, WriteDestination, WriteTo,
};

fn named(name: &str) -> SemanticReleasePluginConfiguration {
    SemanticReleasePluginConfiguration::WithoutConfiguration(name.to_string())
}

fn configured(name: &str) -> SemanticReleasePluginConfiguration {
    SemanticReleasePluginConfiguration::WithConfiguration(vec![
        JsonValue::Str(name.to_string()),
        JsonValue::Object(vec![("assets".to_string(), JsonValue::Array(vec![]))]),
    ])
}

fn names(list: &[&str]) -> Vec<String> {
    list.iter().map(|s| s.to_string()).collect()
}

fn manifest(plugins: Vec<SemanticReleasePluginConfiguration>) -> SemanticReleaseManifest {
    SemanticReleaseManifest {
        plugins: Some(plugins),
        other_fields: vec![(
            "branches".to_string(),
            JsonValue::Array(vec![JsonValue::Str("main".to_string())]),
        )],
    }
}

fn plugin_names(m: &SemanticReleaseManifest) -> Vec<Option<String>> {
    m.plugins
        .as_ref()
        .unwrap()
        .iter()
        .map(|p| p.plugin_name().map(|s| s.to_string()))
        .collect()
}

#[test]
fn plugin_name_of_a_bare_name() {
    assert_eq!(named("@semantic-release/git").plugin_name(), Some("@semantic-release/git"));
}

#[test]
fn plugin_name_of_a_configured_plugin() {
    assert_eq!(configured("@semantic-release/github").plugin_name(), Some("@semantic-release/github"));
}

#[test]
fn plugin_name_of_an_array_without_a_leading_string() {
    let entry = SemanticReleasePluginConfiguration::WithConfiguration(vec![
        JsonValue::Number("3".to_string()),
        JsonValue::Str("@semantic-release/git".to_string()),
    ]);
    assert_eq!(entry.plugin_name(), None);
    let empty = SemanticReleasePluginConfiguration::WithConfiguration(vec![]);
    assert_eq!(empty.plugin_name(), None);
}

#[test]
fn json_as_str_only_for_strings() {
    assert_eq!(JsonValue::Str("x".to_string()).as_str(), Some("x"));
    assert_eq!(JsonValue::Null.as_str(), None);
    assert_eq!(JsonValue::Bool(true).as_str(), None);
}

#[test]
fn removal_reports_modified_and_keeps_order() {
    let mut m = manifest(vec![named("a"), configured("b"), named("c"), configured("a")]);
    let result = m.remove_plugin_configuration(names(&["a"]));
    assert_eq!(result.unwrap(), ModifiedFlag::Modified);
    assert_eq!(plugin_names(&m), vec![Some("b".to_string()), Some("c".to_string())]);
    assert_eq!(m.other_fields.len(), 1);
    assert_eq!(m.other_fields[0].0, "branches");
}

#[test]
fn removal_of_absent_names_reports_unmodified() {
    let mut m = manifest(vec![named("a"), named("b")]);
    let before = plugin_names(&m);
    let result = m.remove_plugin_configuration(names(&["z"]));
    assert_eq!(result.unwrap(), ModifiedFlag::Unmodified);
    assert_eq!(plugin_names(&m), before);
}

#[test]
fn removal_without_plugins_changes_nothing() {
    let mut m = SemanticReleaseManifest {
        plugins: None,
        other_fields: vec![],
    };
    let result = m.remove_plugin_configuration(names(&["a"]));
    assert_eq!(result.unwrap(), ModifiedFlag::Unmodified);
    assert!(m.plugins.is_none());
}

#[test]
fn entries_without_a_name_are_kept() {
    let odd = SemanticReleasePluginConfiguration::WithConfiguration(vec![JsonValue::Null]);
    let mut m = manifest(vec![odd, named("a")]);
    let result = m.remove_plugin_configuration(names(&["a"]));
    assert_eq!(result.unwrap(), ModifiedFlag::Modified);
    assert_eq!(plugin_names(&m), vec![None]);
}

#[test]
fn removing_twice_changes_nothing_the_second_time() {
    let mut m = manifest(vec![named("a"), named("b"), configured("c")]);
    assert_eq!(m.remove_plugin_configuration(names(&["a", "c"])).unwrap(), ModifiedFlag::Modified);
    let after_first = plugin_names(&m);
    assert_eq!(m.remove_plugin_configuration(names(&["a", "c"])).unwrap(), ModifiedFlag::Unmodified);
    assert_eq!(plugin_names(&m), after_first);
}

#[test]
fn removals_compose() {
    let mut one = manifest(vec![named("a"), named("b"), configured("c"), named("d")]);
    one.remove_plugin_configuration(names(&["a"])).unwrap();
    one.remove_plugin_configuration(names(&["c"])).unwrap();
    let mut both = manifest(vec![named("a"), named("b"), configured("c"), named("d")]);
    both.remove_plugin_configuration(names(&["a", "c"])).unwrap();
    assert_eq!(plugin_names(&one), plugin_names(&both));
    assert_eq!(plugin_names(&both), vec![Some("b".to_string()), Some("d".to_string())]);
}

#[test]
fn removing_no_names_keeps_everything() {
    let mut m = manifest(vec![named("a"), configured("b")]);
    assert_eq!(m.remove_plugin_configuration(vec![]).unwrap(), ModifiedFlag::Unmodified);
    assert_eq!(plugin_names(&m), vec![Some("a".to_string()), Some("b".to_string())]);
}

#[test]
fn configuration_starts_unmodified_and_writes_nothing() {
    let c = SemanticReleaseConfiguration::new(manifest(vec![named("a")]), ".releaserc.json".to_string());
    assert_eq!(c.dirty(), ModifiedFlag::Unmodified);
    assert_eq!(c.manifest_path(), ".releaserc.json");
    assert!(c.write_if_modified(WriteTo::Stdout).is_none());
    assert!(c.write_if_modified(WriteTo::InPlace).is_none());
}

#[test]
fn configuration_becomes_modified_and_stays_modified() {
    let mut c = SemanticReleaseConfiguration::new(manifest(vec![named("a"), named("b")]), "x/.releaserc".to_string());
    c.remove_plugin_configuration(names(&["zzz"])).unwrap();
    assert_eq!(c.dirty(), ModifiedFlag::Unmodified);
    c.remove_plugin_configuration(names(&["a"])).unwrap();
    assert_eq!(c.dirty(), ModifiedFlag::Modified);
    c.remove_plugin_configuration(names(&["zzz"])).unwrap();
    assert_eq!(c.dirty(), ModifiedFlag::Modified);
    assert_eq!(plugin_names(c.manifest()), vec![Some("b".to_string())]);
    match c.write_if_modified(WriteTo::InPlace) {
        Some(WriteDestination::File(path)) => assert_eq!(path, "x/.releaserc"),
        other => panic!("unexpected destination {:?}", other),
    }
    assert!(matches!(c.write_if_modified(WriteTo::Stdout), Some(WriteDestination::Stdout)));
}

#[test]
fn error_messages() {
    assert_eq!(
        Error::configuration_file_not_found_error("a/.releaserc.json").message(),
        "Expected semantic-release configuration to exist at a/.releaserc.json"
    );
    let io = || std::io::Error::new(std::io::ErrorKind::Other, "boom");
    assert_eq!(Error::file_open_error(io(), "f.json").message(), "Unable to open file f.json");
    assert_eq!(Error::file_read_error(io(), "f.json").message(), "Unable to read file f.json");
    assert_eq!(
        Error::file_write_error(io(), "f.json").message(),
        "Unable to write changes to file f.json"
    );
    let parse = serde_json::from_str::<serde_json::Value>("{").unwrap_err();
    assert_eq!(
        Error::file_parse_error(parse).message(),
        "Unable to parse semantic-release configuration file"
    );
    let other = serde_json::from_str::<serde_json::Value>("]").unwrap_err();
    assert_eq!(Error::file_serialize_error(other).message(), "Unable to serialize file");
    assert_eq!(
        Error::UnexpectedContentsError.message(),
        "Unexpected contents in semantic-release configuration file"
    );
}

#[test]
fn error_constructors_keep_paths() {
    match Error::configuration_file_not_found_error("p") {
        Error::ConfigurationFileNotFound { path } => assert_eq!(path, "p"),
        other => panic!("unexpected {:?}", other),
    }
    match Error::file_open_error(std::io::Error::new(std::io::ErrorKind::NotFound, "x"), "q") {
        Error::FileOpenError { inner, path } => {
            assert_eq!(path, "q");
            assert_eq!(inner.kind(), std::io::ErrorKind::NotFound);
        }
        other => panic!("unexpected {:?}", other),
    }
}

#[test]
fn supported_extensions() {
    assert_eq!(supported_file_types(), vec!["json"]);
    assert!(is_supported_file_type("json"));
    assert!(!is_supported_file_type("yaml"));
    assert!(!is_supported_file_type("JSON"));
    assert!(!is_unsupported_extension(&None));
    assert!(is_unsupported_extension(&Some("yml".to_string())));
    assert!(!is_unsupported_extension(&Some("json".to_string())));
}

#[test]
fn unsupported_file_extensions() {
    assert!(!is_unsupported_file_extension("project/.releaserc.json"));
    assert!(!is_unsupported_file_extension("project/package.json"));
    assert!(!is_unsupported_file_extension("project/.releaserc"));
    assert!(is_unsupported_file_extension("project/.releaserc.yaml"));
    assert!(is_unsupported_file_extension("project/release.config.js"));
}

#[test]
fn check_file_extension_reports_the_extension() {
    assert!(check_file_extension("a/.releaserc.json").is_ok());
    assert!(check_file_extension("a/.releaserc").is_ok());
    match check_file_extension("a/.releaserc.yml") {
        Err(LookupError {
            kind: LookupErrorKind::UnsupportedFileExtension { extension },
        }) => assert_eq!(extension, Some("yml".to_string())),
        other => panic!("unexpected {:?}", other),
    }
}

#[test]
fn find_config_maps_the_search_outcome() {
    assert_eq!(
        find_semantic_release_config("dir", Ok(Some("dir/.releaserc.json".to_string()))).unwrap(),
        "dir/.releaserc.json"
    );
    match find_semantic_release_config("dir", Ok(None)) {
        Err(LookupError {
            kind: LookupErrorKind::MissingConfiguration { directory },
        }) => assert_eq!(directory, "dir"),
        other => panic!("unexpected {:?}", other),
    }
    let failure = find_semantic_release_config::Error::FileOpenError {
        source: std::io::Error::new(std::io::ErrorKind::Other, "x"),
        path: std::path::PathBuf::from("dir/package.json"),
    };
    match find_semantic_release_config("dir", Err(failure)) {
        Err(LookupError {
            kind: LookupErrorKind::FindConfiguration(_),
        }) => {}
        other => panic!("unexpected {:?}", other),
    }
}

#[test]
fn lookup_error_messages() {
    let missing = LookupError {
        kind: LookupErrorKind::MissingConfiguration {
            directory: "some/dir".to_string(),
        },
    };
    assert_eq!(
        missing.message(),
        "directory does not contain semantic-release configuration: \"some/dir\""
    );
    let unsupported = LookupError {
        kind: LookupErrorKind::UnsupportedFileExtension {
            extension: Some("yaml".to_string()),
        },
    };
    assert_eq!(
        unsupported.message(),
        "unsupported file extension \"yaml\"\nCurrently configure-semantic-release-manifest only supports the following extensions: [\"json\"]"
    );
    let none = LookupError {
        kind: LookupErrorKind::UnsupportedFileExtension { extension: None },
    };
    assert!(none.message().starts_with("unsupported file extension \"\"\n"));
    let search = LookupError {
        kind: LookupErrorKind::FindConfiguration(find_semantic_release_config::Error::FileReadError {
            source: std::io::Error::new(std::io::ErrorKind::Other, "x"),
            path: std::path::PathBuf::from("p"),
        }),
    };
    assert_eq!(search.message(), "unable to find semantic-release configuration");
}

#[test]
fn json_clone_is_equal() {
    let value = JsonValue::Object(vec![
        ("a".to_string(), JsonValue::Array(vec![JsonValue::Number("1.5".to_string()), JsonValue::Null])),
        ("b".to_string(), JsonValue::Bool(false)),
    ]);
    assert_eq!(value.clone(), value);
}

fn member(key: &str, value: JsonValue) -> (String, JsonValue) {
    (key.to_string(), value)
}

#[test]
fn from_members_picks_out_plugins() {
    let m = SemanticReleaseManifest::from_members(vec![
        member("branches", JsonValue::Array(vec![JsonValue::Str("main".to_string())])),
        member(
            "plugins",
            JsonValue::Array(vec![
                JsonValue::Str("a".to_string()),
                JsonValue::Array(vec![JsonValue::Str("b".to_string()), JsonValue::Null]),
            ]),
        ),
        member("tagFormat", JsonValue::Str("v${version}".to_string())),
    ])
    .unwrap();
    assert_eq!(plugin_names(&m), vec![Some("a".to_string()), Some("b".to_string())]);
    let keys: Vec<&str> = m.other_fields.iter().map(|(k, _)| k.as_str()).collect();
    assert_eq!(keys, vec!["branches", "tagFormat"]);
}

#[test]
fn from_members_keeps_a_null_plugins_member() {
    let m = SemanticReleaseManifest::from_members(vec![member("plugins", JsonValue::Null)]).unwrap();
    assert!(m.plugins.is_none());
    assert_eq!(m.other_fields, vec![member("plugins", JsonValue::Null)]);
}

#[test]
fn from_members_refuses_unexpected_plugins() {
    let not_a_list = SemanticReleaseManifest::from_members(vec![member("plugins", JsonValue::Bool(true))]);
    assert!(not_a_list.is_none());
    let bad_entry = SemanticReleaseManifest::from_members(vec![member(
        "plugins",
        JsonValue::Array(vec![JsonValue::Str("a".to_string()), JsonValue::Number("1".to_string())]),
    )]);
    assert!(bad_entry.is_none());
}

#[test]
fn into_members_puts_plugins_last() {
    let members = manifest(vec![named("a"), configured("b")]).into_members();
    assert_eq!(members.len(), 2);
    assert_eq!(members[0].0, "branches");
    assert_eq!(members[1].0, "plugins");
    match &members[1].1 {
        JsonValue::Array(items) => {
            assert_eq!(items.len(), 2);
            assert_eq!(items[0], JsonValue::Str("a".to_string()));
        }
        other => panic!("unexpected {:?}", other),
    }
    let without = SemanticReleaseManifest {
        plugins: None,
        other_fields: vec![member("x", JsonValue::Null)],
    };
    assert_eq!(without.into_members(), vec![member("x", JsonValue::Null)]);
}

#[test]
fn members_round_trip() {
    let original = manifest(vec![named("a"), configured("b"), named("c")]);
    let back = SemanticReleaseManifest::from_members(original.clone().into_members()).unwrap();
    assert_eq!(back, original);
}

#[test]
fn dirty_exactly_when_plugins_changed() {
    let read = manifest(vec![named("a"), named("b")]);
    let mut c = SemanticReleaseConfiguration::new(read.clone(), "p".to_string());
    for step in [vec!["x"], vec!["b"], vec!["y"], vec!["a"]] {
        c.remove_plugin_configuration(names(&step)).unwrap();
        let changed = c.manifest().plugins != read.plugins;
        assert_eq!(c.dirty() == ModifiedFlag::Modified, changed);
    }
    assert_eq!(c.manifest().plugins, Some(vec![]));
}
