//! Tests of the language enumeration, the runtime decision rules, the
//! product configurations, the tool manager, and the screen state.

use scaffolder::product::{IiiConfig, MotiaConfig};
use scaffolder::runtime::{
    check_runtimes, check_runtimes_with_advisory, get_install_instructions, parse_language,
    Language, RuntimeInfo, RuntimeProbes,
};
use scaffolder::schema::parse_template_manifest;
use scaffolder::screens::{
    classify_languages, CreateArgs, DirectoryScreen, IiiCheckScreen, IiiOption,
    LanguageSelectScreen, SummaryScreen, TemplateSelectScreen,
};
use scaffolder::text::base_name;
use scaffolder::tool::iii_tool;

fn found(name: &'static str, version: &str) -> RuntimeInfo {
    RuntimeInfo { name, version: Some(version.to_string()), available: true }
}

fn absent(name: &'static str) -> RuntimeInfo {
    RuntimeInfo { name, version: None, available: false }
}

fn probes(bun: bool, node: bool, python: bool, cargo: bool) -> RuntimeProbes {
    RuntimeProbes {
        bun: if bun { found("Bun", "1.0") } else { absent("Bun") },
        node: if node { found("Node.js", "v20") } else { absent("Node.js") },
        python: if python { found("Python 3", "3.12") } else { absent("Python 3") },
        cargo: if cargo { found("Cargo", "1.80") } else { absent("Cargo") },
    }
}

#[test]
fn language_names_and_parsing() {
    assert_eq!(Language::TypeScript.display_name(), "TypeScript");
    assert_eq!(Language::Rust.display_name(), "Rust");
    assert_eq!(parse_language("ts"), Some(Language::TypeScript));
    assert_eq!(parse_language("TypeScript"), Some(Language::TypeScript));
    assert_eq!(parse_language("JS"), Some(Language::JavaScript));
    assert_eq!(parse_language("python"), Some(Language::Python));
    assert_eq!(parse_language("PY"), Some(Language::Python));
    assert_eq!(parse_language("rs"), Some(Language::Rust));
    assert_eq!(parse_language("go"), None);
    assert_eq!(parse_language(""), None);
}

#[test]
fn file_extensions_per_language() {
    assert_eq!(
        Language::TypeScript.file_extensions(),
        vec![".step.ts", ".step.tsx", ".config.ts"]
    );
    assert_eq!(Language::Python.file_extensions(), vec!["_step.py"]);
    assert!(Language::Rust.file_extensions().is_empty());
}

#[test]
fn runtimes_all_available() {
    let langs = vec![Language::TypeScript, Language::Python, Language::Rust];
    let report = check_runtimes(&langs, probes(true, true, true, true)).unwrap();
    let names: Vec<&str> = report.iter().map(|r| r.name).collect();
    assert_eq!(names, vec!["Bun", "Node.js", "Python 3", "Cargo"]);
    assert!(report.iter().all(|r| r.available));
}

#[test]
fn missing_runtimes_fail_strict_checking() {
    let langs = vec![Language::TypeScript, Language::Python];
    let err = check_runtimes(&langs, probes(false, false, false, false)).unwrap_err();
    assert_eq!(
        err,
        vec![
            "Node.js or Bun (install from https://nodejs.org or https://bun.sh)".to_string(),
            "Python 3 (install from https://python.org)".to_string(),
        ]
    );
}

#[test]
fn advisory_languages_do_not_fail() {
    let langs = vec![Language::TypeScript, Language::Python];
    let advisory = vec![Language::TypeScript, Language::Python];
    let report =
        check_runtimes_with_advisory(&langs, &advisory, probes(false, false, false, false))
            .unwrap();
    let lines: Vec<(&str, bool)> = report.iter().map(|r| (r.name, r.available)).collect();
    assert_eq!(lines, vec![("Node.js or Bun", false), ("Python 3", false)]);
}

#[test]
fn partially_advisory_selection_still_fails_on_required() {
    // TypeScript is advisory but Python is not: only Python blocks.
    let langs = vec![Language::TypeScript, Language::Python];
    let advisory = vec![Language::TypeScript];
    let err =
        check_runtimes_with_advisory(&langs, &advisory, probes(false, false, false, false))
            .unwrap_err();
    assert_eq!(err, vec!["Python 3 (install from https://python.org)".to_string()]);
}

#[test]
fn unselected_languages_are_not_probed_into_the_report() {
    let langs = vec![Language::Rust];
    let report = check_runtimes(&langs, probes(true, true, true, true)).unwrap();
    let names: Vec<&str> = report.iter().map(|r| r.name).collect();
    assert_eq!(names, vec!["Cargo"]);
}

#[test]
fn install_instructions_for_missing_runtimes() {
    let langs = vec![Language::TypeScript, Language::Python];
    let instructions = get_install_instructions(&langs, false, false, false);
    assert_eq!(
        instructions,
        vec![
            ("Bun", "curl -fsSL https://bun.sh/install | bash"),
            ("Node.js", "https://nodejs.org/en/download/"),
            ("Python 3", "https://python.org/downloads/"),
        ]
    );
    // An available runtime needs no instructions.
    assert!(get_install_instructions(&langs, true, false, true).is_empty());
}

#[test]
fn tool_manager_identity_and_install_command() {
    let tool = iii_tool();
    assert_eq!(tool.config().name, "iii");
    assert_eq!(tool.config().docs_url, "https://iii.dev/docs");
    assert_eq!(
        tool.install_command(),
        "curl -fsSL https://install.iii.dev/latest.sh | sh"
    );
}

#[test]
fn product_configurations() {
    let iii = IiiConfig.config();
    assert_eq!(iii.name, "iii");
    assert_eq!(iii.template_url_env, "III_TEMPLATE_URL");
    assert!(iii.requires_iii);
    assert_eq!(iii.user_agent(), "iii");

    let motia = MotiaConfig.config();
    assert_eq!(motia.display_name, "Motia");
    assert_eq!(motia.upgrade_command, "cargo install motia-tools --force");
}

#[test]
fn product_next_steps() {
    let steps = IiiConfig.next_steps("/tmp/app", false, &vec![Language::TypeScript]);
    assert_eq!(steps, vec!["cd /tmp/app", "Open README.md to get started"]);
    let steps = IiiConfig.next_steps("/tmp/app", true, &vec![Language::TypeScript]);
    assert_eq!(steps, vec!["Open README.md to get started"]);

    let steps = MotiaConfig.next_steps("/tmp/app", false, &vec![Language::TypeScript]);
    assert_eq!(
        steps,
        vec![
            "iii -c iii.config.yaml",
            "cd /tmp/app",
            "npm install @iii-dev/motia",
            "npm dev",
        ]
    );
    let steps = MotiaConfig.next_steps("/tmp/app", true, &vec![Language::Python]);
    assert_eq!(steps.len(), 2);
    assert!(steps[1].starts_with("Set up Python environment:"));
}

#[test]
fn create_args_default_is_interactive() {
    let args = CreateArgs::default();
    assert!(args.template_dir.is_none());
    assert!(args.template.is_none());
    assert!(args.directory.is_none());
    assert!(args.languages.is_none());
    assert!(!args.skip_tool_check);
    assert!(!args.yes);
}

#[test]
fn directory_screen_editing() {
    let mut screen = DirectoryScreen::new("/home/dev".to_string());
    screen.insert_char('a');
    screen.insert_char('p');
    screen.insert_char('p');
    assert_eq!(screen.input, "app");
    assert_eq!(screen.cursor_position, 3);

    screen.move_cursor_left();
    screen.delete_char();
    assert_eq!(screen.input, "ap");
    assert_eq!(screen.cursor_position, 1);
    screen.insert_char('x');
    assert_eq!(screen.input, "axp");

    screen.move_cursor_right();
    screen.move_cursor_right();
    screen.move_cursor_right();
    assert_eq!(screen.cursor_position, 3);
}

#[test]
fn directory_screen_path_resolution() {
    let mut screen = DirectoryScreen::new("/home/dev".to_string());
    assert_eq!(screen.get_path(), "/home/dev");
    screen.insert_char('.');
    assert_eq!(screen.get_path(), "/home/dev");
    screen.insert_char('/');
    // "./" is relative input, joined under the current directory.
    assert_eq!(screen.get_path(), "/home/dev/./");

    let mut screen = DirectoryScreen::new("/home/dev".to_string());
    for c in "/abs/path".chars() {
        screen.insert_char(c);
    }
    assert_eq!(screen.get_path(), "/abs/path");

    let mut screen = DirectoryScreen::new("/home/dev/".to_string());
    for c in "proj".chars() {
        screen.insert_char(c);
    }
    assert_eq!(screen.get_path(), "/home/dev/proj");
}

#[test]
fn iii_check_screen_navigation() {
    let mut screen = IiiCheckScreen::new(false, None);
    assert_eq!(screen.selected_option(), IiiOption::OpenDocs);
    screen.next();
    assert_eq!(screen.selected_option(), IiiOption::AutoInstall);
    screen.next();
    assert_eq!(screen.selected_option(), IiiOption::Skip);
    screen.next();
    assert_eq!(screen.selected_option(), IiiOption::OpenDocs);
    screen.previous();
    assert_eq!(screen.selected_option(), IiiOption::Skip);
    assert_eq!(IiiOption::AutoInstall.label(), "Automatically install iii");
    assert_eq!(IiiOption::all().len(), 3);
}

#[test]
fn language_select_screen_rules() {
    let text = "name: a\ndescription: b\nversion: 0.1.0\nrequires: [\"typescript\"]\noptional: [\"python\"]\nfiles: []\n";
    let manifest = parse_template_manifest(text, "t").unwrap();
    let mut screen = LanguageSelectScreen::new(&manifest);
    assert_eq!(screen.options.len(), 2);
    assert_eq!(screen.options[0].language, Language::TypeScript);
    assert!(screen.options[0].selected && screen.options[0].required);
    assert_eq!(screen.options[1].language, Language::Python);
    assert!(!screen.options[1].selected && !screen.options[1].required);

    // A required language cannot be deselected.
    screen.toggle();
    assert_eq!(screen.selected_languages(), vec![Language::TypeScript]);
    // An optional one toggles on and off.
    screen.next();
    screen.toggle();
    assert_eq!(
        screen.selected_languages(),
        vec![Language::TypeScript, Language::Python]
    );
    screen.toggle();
    assert_eq!(screen.selected_languages(), vec![Language::TypeScript]);
}

#[test]
fn language_classification_follows_the_included_flag() {
    let text = "name: a\ndescription: b\nversion: 0.1.0\nrequires: [\"typescript\"]\noptional: [\"python\", \"rust\"]\nfiles: []\n";
    let manifest = parse_template_manifest(text, "t").unwrap();
    let plan = classify_languages(&manifest);
    assert_eq!(plan.required, vec![Language::TypeScript]);
    assert!(plan.included.is_empty());
    assert_eq!(plan.optional, vec![Language::Python, Language::Rust]);

    // With the flag set, required languages become "included" (advisory).
    let mut advisory = manifest;
    advisory.treat_required_as_included = true;
    let plan = classify_languages(&advisory);
    assert!(plan.required.is_empty());
    assert_eq!(plan.included, vec![Language::TypeScript]);
    assert_eq!(plan.optional, vec![Language::Python, Language::Rust]);
}

#[test]
fn template_select_screen_navigation() {
    let text = "name: a\ndescription: b\nversion: 0.1.0\nfiles: []\n";
    let manifest = parse_template_manifest(text, "t").unwrap();
    let mut screen = TemplateSelectScreen::new();
    assert!(screen.selected_template().is_none());
    screen.next();
    assert_eq!(screen.selected, 0);

    screen.set_templates(vec![
        ("one".to_string(), manifest.duplicate()),
        ("two".to_string(), manifest),
    ]);
    assert_eq!(screen.selected_template().unwrap().0, "one");
    screen.next();
    assert_eq!(screen.selected_template().unwrap().0, "two");
    screen.next();
    assert_eq!(screen.selected_template().unwrap().0, "one");
    screen.previous();
    assert_eq!(screen.selected_template().unwrap().0, "two");
    screen.set_error("load failed".to_string());
    assert_eq!(screen.error.as_deref(), Some("load failed"));
}

#[test]
fn summary_screen_lifecycle_and_steps() {
    let mut screen = SummaryScreen::new(
        "basic".to_string(),
        "/tmp/app".to_string(),
        vec![Language::TypeScript, Language::Python],
    );
    assert!(!screen.is_complete);
    screen.set_version_warning("old".to_string());
    screen.set_complete(vec!["a".to_string()]);
    assert!(screen.is_complete);
    assert_eq!(screen.copied_files, vec!["a"]);

    assert_eq!(
        screen.get_next_steps(),
        vec![
            "cd /tmp/app",
            "npm install",
            "python3 -m venv .venv",
            "source .venv/bin/activate",
            "pip install -r requirements",
            "npm run build",
            "iii start",
        ]
    );

    screen.set_error("boom".to_string());
    assert_eq!(screen.error.as_deref(), Some("boom"));
}

#[test]
fn base_name_extraction() {
    assert_eq!(base_name("a/b/c.txt"), "c.txt");
    assert_eq!(base_name("c.txt"), "c.txt");
    assert_eq!(base_name("a/b/"), "");
    assert_eq!(base_name(""), "");
    assert_eq!(base_name("/leading"), "leading");
}
