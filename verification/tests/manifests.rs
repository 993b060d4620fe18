//! Tests of manifest parsing, serialization, manifest queries, and version
//! compatibility checking.

use scaffolder::errors::TemplateError;
use scaffolder::manifest::SharedFile;
use scaffolder::schema::{parse_root_manifest, parse_template_manifest, serialize_template_manifest};
use scaffolder::version::check_compatibility;

const ROOT_YAML: &str = "templates: [basic, advanced]
language_files:
  common: [\"*.gitignore\", \".env\", \".env.*\"]
  python: [\"*_step.py\", \"requirements.txt\"]
  typescript: [\"*.step.ts\", \"*.config.ts\"]
  javascript: [\"*.step.js\"]
  node: [\"package.json\"]
  rust: []
shared_files:
  - source: \"common/.gitignore\"
    dest: \".gitignore\"
  - source: \"common/LICENSE\"
";

const TEMPLATE_YAML: &str = "name: \"Quickstart\"
description: \"A starter\"
version: \"0.2.0\"
requires: [\"typescript\"]
optional: [\"python\"]
treat_required_as_included: false
files: [\"src/index.step.ts\", \"package.json\", \".env\"]
language_files:
  typescript: [\"*.step.ts\"]
";

#[test]
fn parses_root_manifest() {
    let root = parse_root_manifest(ROOT_YAML).unwrap();
    assert_eq!(root.templates, vec!["basic".to_string(), "advanced".to_string()]);
    assert_eq!(root.language_files.common, vec!["*.gitignore", ".env", ".env.*"]);
    assert_eq!(root.language_files.node, vec!["package.json"]);
    assert!(root.language_files.rust.is_empty());
    assert_eq!(root.shared_files.len(), 2);
    assert_eq!(root.shared_files[0].source, "common/.gitignore");
    assert_eq!(root.shared_files[0].destination(), ".gitignore");
    // Without a dest, the destination falls back to the source.
    assert_eq!(root.shared_files[1].destination(), "common/LICENSE");
}

#[test]
fn parses_template_manifest() {
    let m = parse_template_manifest(TEMPLATE_YAML, "basic").unwrap();
    assert_eq!(m.name, "Quickstart");
    assert_eq!(m.description, "A starter");
    assert_eq!(m.version, "0.2.0");
    assert_eq!(m.requires, vec!["typescript"]);
    assert_eq!(m.optional, vec!["python"]);
    assert!(!m.treat_required_as_included);
    assert_eq!(m.files, vec!["src/index.step.ts", "package.json", ".env"]);
    assert_eq!(m.language_files.typescript, vec!["*.step.ts"]);
    assert!(m.language_files.common.is_empty());
}

#[test]
fn accepts_suggested_alias_for_included_flag() {
    let text = "name: a\ndescription: b\nversion: 1.0.0\ntreat_required_as_suggested: true\nfiles: []\n";
    let m = parse_template_manifest(text, "t").unwrap();
    assert!(m.treat_required_as_included);
}

#[test]
fn missing_required_field_is_a_parse_error() {
    // No `files` list: the field has no default.
    let text = "name: a\ndescription: b\nversion: 1.0.0\n";
    let r = parse_template_manifest(text, "broken");
    assert!(matches!(r, Err(TemplateError::Parse { .. })));
    if let Err(TemplateError::Parse { context }) = r {
        assert_eq!(context, "broken");
    }
}

#[test]
fn malformed_yaml_is_a_parse_error() {
    let r = parse_root_manifest(": : :\n  - ]");
    assert!(matches!(r, Err(TemplateError::Parse { .. })));
    let r = parse_root_manifest("language_files: {}\n");
    // Without a `templates` list the document does not match the schema.
    assert!(r.is_err());
}

#[test]
fn wrong_field_type_is_a_parse_error() {
    let text = "name: a\ndescription: b\nversion: 1.5\nfiles: []\n";
    // A floating-point version is not a string.
    assert!(parse_template_manifest(text, "t").is_err());
    let text = "name: a\ndescription: b\nversion: \"1.0.0\"\nfiles: [1, 2]\n";
    assert!(parse_template_manifest(text, "t").is_err());
}

#[test]
fn serialization_round_trips() {
    let m = parse_template_manifest(TEMPLATE_YAML, "basic").unwrap();
    let text = serialize_template_manifest(&m).unwrap();
    let back = parse_template_manifest(&text, "basic").unwrap();
    assert_eq!(back.name, m.name);
    assert_eq!(back.description, m.description);
    assert_eq!(back.version, m.version);
    assert_eq!(back.requires, m.requires);
    assert_eq!(back.optional, m.optional);
    assert_eq!(back.treat_required_as_included, m.treat_required_as_included);
    assert_eq!(back.files, m.files);
    assert_eq!(back.language_files.typescript, m.language_files.typescript);
}

#[test]
fn language_lookups_ignore_ascii_case() {
    let m = parse_template_manifest(TEMPLATE_YAML, "basic").unwrap();
    assert!(m.is_required("typescript"));
    assert!(m.is_required("TypeScript"));
    assert!(m.is_required("TYPESCRIPT"));
    assert!(!m.is_required("python"));
    assert!(m.is_optional("Python"));
    assert!(!m.is_optional("typescript"));
    assert_eq!(m.all_languages(), vec!["typescript", "python"]);
}

#[test]
fn included_language_names_follow_the_flag() {
    let mut m = parse_template_manifest(TEMPLATE_YAML, "basic").unwrap();
    assert!(m.included_language_names().is_empty());
    m.treat_required_as_included = true;
    assert_eq!(m.included_language_names(), vec!["typescript"]);
}

#[test]
fn shared_file_destination_fallback() {
    let with_dest = SharedFile {
        source: "common/.gitignore".to_string(),
        dest: Some(".gitignore".to_string()),
    };
    assert_eq!(with_dest.destination(), ".gitignore");
    let without = SharedFile { source: "common/LICENSE".to_string(), dest: None };
    assert_eq!(without.destination(), "common/LICENSE");
}

#[test]
fn test_cli_older_than_template() {
    let warning = check_compatibility("0.1.0", "0.2.0", "cargo install test-cli --force");
    assert!(warning.is_some());
    assert!(warning.unwrap().contains("0.2.0"));
}

#[test]
fn test_cli_same_as_template() {
    let warning = check_compatibility("0.1.0", "0.1.0", "cargo install test-cli --force");
    assert!(warning.is_none());
}

#[test]
fn test_cli_newer_than_template() {
    let warning = check_compatibility("0.2.0", "0.1.0", "cargo install test-cli --force");
    assert!(warning.is_none());
}

#[test]
fn test_invalid_versions() {
    let warning = check_compatibility("invalid", "0.1.0", "cargo install test-cli --force");
    assert!(warning.is_none());
    let warning = check_compatibility("0.1.0", "invalid", "cargo install test-cli --force");
    assert!(warning.is_none());
}

#[test]
fn compatibility_warning_wording() {
    let warning = check_compatibility("0.1.0", "0.2.0", "cargo install test-cli --force").unwrap();
    assert_eq!(
        warning,
        "Warning: This template was designed for CLI version 0.2.0 or newer.\n\
         You are running version 0.1.0.\n\
         Consider updating: cargo install test-cli --force"
    );
}

#[test]
fn prerelease_versions_order_below_release() {
    // Semantic version ordering puts a pre-release before its release.
    let warning = check_compatibility("1.0.0-alpha", "1.0.0", "upgrade");
    assert!(warning.is_some());
    let warning = check_compatibility("1.0.0", "1.0.0-alpha", "upgrade");
    assert!(warning.is_none());
}
