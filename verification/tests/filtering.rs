//! Tests of the filename pattern rules and the per-file inclusion decision.

use scaffolder::copier::should_include_file;
use scaffolder::manifest::{FileLanguage, LanguageFiles};
use scaffolder::runtime::Language;

fn strings(xs: &[&str]) -> Vec<String> {
    xs.iter().map(|s| s.to_string()).collect()
}

/// The rule table used throughout these tests.
fn test_language_files() -> LanguageFiles {
    LanguageFiles {
        common: strings(&[".env", ".env.*", ".gitignore"]),
        python: strings(&["*_step.py", "requirements.txt", "pyproject.toml"]),
        typescript: strings(&["*.step.ts", "*.step.tsx", "*.config.ts", "tsconfig.json"]),
        javascript: strings(&["*.step.js", "*.step.jsx"]),
        node: strings(&["package.json"]),
        rust: strings(&[]),
    }
}

#[test]
fn test_should_include_typescript_files() {
    let languages = vec![Language::TypeScript];
    let lf = test_language_files();

    assert!(should_include_file("src/start.step.ts", &languages, &lf));
    assert!(should_include_file("src/start.step.tsx", &languages, &lf));
    assert!(should_include_file("src/tutorial.config.ts", &languages, &lf));
    assert!(!should_include_file("src/javascript.step.js", &languages, &lf));
    assert!(!should_include_file("src/python_step.py", &languages, &lf));
}

#[test]
fn test_common_files_always_included() {
    let languages = vec![Language::TypeScript];
    let lf = test_language_files();

    assert!(should_include_file(".env", &languages, &lf));
    assert!(should_include_file(".env.local", &languages, &lf));
    assert!(should_include_file(".gitignore", &languages, &lf));
}

#[test]
fn test_unlisted_files_excluded() {
    let languages = vec![Language::TypeScript];
    let lf = test_language_files();

    assert!(!should_include_file("random.txt", &languages, &lf));
    assert!(!should_include_file("unknown.file", &languages, &lf));
}

#[test]
fn test_should_include_node_files() {
    let languages = vec![Language::TypeScript];
    let lf = test_language_files();

    assert!(should_include_file("package.json", &languages, &lf));
    assert!(should_include_file("motia.config.ts", &languages, &lf));
}

#[test]
fn test_should_include_multiple_languages() {
    let languages = vec![Language::TypeScript, Language::Python];
    let lf = test_language_files();

    assert!(should_include_file("src/start.step.ts", &languages, &lf));
    assert!(should_include_file("src/python_step.py", &languages, &lf));
    assert!(!should_include_file("src/javascript.step.js", &languages, &lf));
}

#[test]
fn test_python_only_files() {
    let ts_only = vec![Language::TypeScript];
    let py_only = vec![Language::Python];
    let lf = test_language_files();

    assert!(!should_include_file("requirements.txt", &ts_only, &lf));
    assert!(should_include_file("requirements.txt", &py_only, &lf));
}

#[test]
fn copier_test_should_include_typescript_files() {
    let languages = vec![Language::TypeScript];
    let lf = test_language_files();

    assert!(should_include_file("src/start.step.ts", &languages, &lf));
    assert!(should_include_file("src/start.step.tsx", &languages, &lf));
    assert!(should_include_file("src/tutorial.config.ts", &languages, &lf));
    assert!(!should_include_file("src/javascript.step.js", &languages, &lf));
    assert!(!should_include_file("src/python_step.py", &languages, &lf));
}

#[test]
fn test_should_include_config_files() {
    let languages = vec![Language::TypeScript];
    let lf = test_language_files();

    assert!(should_include_file("package.json", &languages, &lf));
    assert!(should_include_file(".env", &languages, &lf));
    assert!(should_include_file("motia.config.ts", &languages, &lf));
}

#[test]
fn copier_test_should_include_multiple_languages() {
    let languages = vec![Language::TypeScript, Language::Python];
    let lf = test_language_files();

    assert!(should_include_file("src/start.step.ts", &languages, &lf));
    assert!(should_include_file("src/python_step.py", &languages, &lf));
    assert!(!should_include_file("src/javascript.step.js", &languages, &lf));
}

#[test]
fn copier_test_python_only_files() {
    let ts_only = vec![Language::TypeScript];
    let py_only = vec![Language::Python];
    let lf = test_language_files();

    assert!(!should_include_file("requirements.txt", &ts_only, &lf));
    assert!(should_include_file("requirements.txt", &py_only, &lf));
}

#[test]
fn suffix_prefix_and_exact_patterns() {
    let suffix = strings(&["*.step.ts"]);
    assert!(LanguageFiles::matches_any("a.step.ts", &suffix));
    assert!(LanguageFiles::matches_any(".step.ts", &suffix));
    assert!(!LanguageFiles::matches_any("a.step.tsx", &suffix));

    let prefix = strings(&["requirements*"]);
    assert!(LanguageFiles::matches_any("requirements.txt", &prefix));
    assert!(LanguageFiles::matches_any("requirements", &prefix));
    assert!(!LanguageFiles::matches_any("requirement.txt", &prefix));

    let exact = strings(&["package.json"]);
    assert!(LanguageFiles::matches_any("package.json", &exact));
    assert!(!LanguageFiles::matches_any("package.json5", &exact));
    assert!(!LanguageFiles::matches_any("xpackage.json", &exact));

    // A bare `*` suffix-matches the empty remainder: every filename.
    let star = strings(&["*"]);
    assert!(LanguageFiles::matches_any("anything.at.all", &star));
    assert!(LanguageFiles::matches_any("", &star));
}

#[test]
fn matching_uses_base_name_only() {
    let lf = test_language_files();
    // Directory components never participate: the base name decides.
    assert_eq!(
        lf.get_language_for_file("deep/dir/tree/app.step.ts"),
        Some(FileLanguage::TypeScript)
    );
    // A pattern matching a directory name does not match the file.
    assert_eq!(lf.get_language_for_file("requirements.txt/other"), None);
}

#[test]
fn common_bucket_takes_precedence() {
    let mut lf = test_language_files();
    // `.env` also matches a python pattern now, but common is checked first.
    lf.python.push(".env".to_string());
    assert_eq!(lf.get_language_for_file(".env"), Some(FileLanguage::Common));
}

#[test]
fn merge_appends_bucket_wise_and_order_is_irrelevant() {
    let mut root = test_language_files();
    let overlay = LanguageFiles {
        common: strings(&["LICENSE"]),
        python: strings(&["setup.py"]),
        typescript: strings(&[]),
        javascript: strings(&[]),
        node: strings(&["package-lock.json"]),
        rust: strings(&["Cargo.toml"]),
    };
    root.merge(&overlay);
    assert_eq!(root.common.last().map(String::as_str), Some("LICENSE"));
    assert_eq!(root.python.last().map(String::as_str), Some("setup.py"));
    assert_eq!(root.rust, strings(&["Cargo.toml"]));

    // Merging in the other order assigns every file the same bucket.
    let mut other_way = LanguageFiles {
        common: strings(&["LICENSE"]),
        python: strings(&["setup.py"]),
        typescript: strings(&[]),
        javascript: strings(&[]),
        node: strings(&["package-lock.json"]),
        rust: strings(&["Cargo.toml"]),
    };
    other_way.merge(&test_language_files());
    for f in ["LICENSE", "setup.py", ".env", "package.json", "Cargo.toml", "a.step.ts", "x.txt"] {
        assert_eq!(root.get_language_for_file(f), other_way.get_language_for_file(f));
    }
}

#[test]
fn node_bucket_needs_js_or_ts() {
    let lf = test_language_files();
    assert!(should_include_file("package.json", &vec![Language::TypeScript], &lf));
    assert!(should_include_file("package.json", &vec![Language::JavaScript], &lf));
    assert!(!should_include_file("package.json", &vec![Language::Python], &lf));
    assert!(!should_include_file("package.json", &vec![], &lf));
}

#[test]
fn rust_bucket_and_empty_selection() {
    let mut lf = test_language_files();
    lf.rust.push("Cargo.toml".to_string());
    assert_eq!(lf.get_language_for_file("Cargo.toml"), Some(FileLanguage::Rust));
    assert!(should_include_file("Cargo.toml", &vec![Language::Rust], &lf));
    assert!(!should_include_file("Cargo.toml", &vec![Language::Python], &lf));
}
