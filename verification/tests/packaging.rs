//! Tests of the packaging pipeline: planning and building a local template
//! package, unpacking it into the cache, serving cached data, and the copy
//! engine, through to the end-to-end scenario.

use scaffolder::copier::{copy_template, preview_files};
use scaffolder::errors::TemplateError;
use scaffolder::fetcher::{
    build_local_zip, extract_zip_to_cache, plan_local_zip, TemplateFetcher, TemplateSource,
};
use scaffolder::manifest::SharedFile;
use scaffolder::runtime::Language;
use scaffolder::schema::parse_template_manifest;

const BASIC_YAML: &str = "name: \"Basic\"
description: \"Starter\"
version: \"0.2.0\"
requires: [\"typescript\"]
optional: [\"python\"]
files: [\"src/index.step.ts\", \"app_step.py\", \"package.json\", \".env\"]
language_files:
  typescript: [\"*.step.ts\"]
  python: [\"*_step.py\"]
  node: [\"package.json\"]
  common: [\".env\"]
";

fn shared_files() -> Vec<SharedFile> {
    vec![SharedFile {
        source: "common/.gitignore".to_string(),
        dest: Some(".gitignore".to_string()),
    }]
}

/// Build the packaged zip for the `basic` template, with one shared file
/// present and one manifest file missing on disk.
fn build_basic_zip() -> Vec<u8> {
    let plan = plan_local_zip(BASIC_YAML, "basic", &shared_files()).unwrap();
    assert_eq!(
        plan.manifest.files,
        vec!["src/index.step.ts", "app_step.py", "package.json", ".env", ".gitignore"]
    );
    assert_eq!(plan.shared_sources, vec!["common/.gitignore"]);
    assert_eq!(plan.shared_dests, vec![".gitignore"]);
    assert_eq!(
        plan.file_reads,
        vec!["src/index.step.ts", "app_step.py", "package.json", ".env"]
    );

    let shared_contents = vec![Some(b"target/\n".to_vec())];
    let file_contents = vec![
        Some(b"export {};\n".to_vec()),
        Some(b"print('hi')\n".to_vec()),
        Some(b"{}\n".to_vec()),
        Some(b"KEY=value\n".to_vec()),
    ];
    build_local_zip("basic", &plan, &shared_contents, &file_contents).unwrap()
}

#[test]
fn local_build_then_extract_round_trips() {
    let zip_bytes = build_basic_zip();
    let cache = extract_zip_to_cache(zip_bytes, "basic").unwrap();

    // The baked manifest equals the original plus the appended shared dest.
    let m = &cache.manifest;
    assert_eq!(m.name, "Basic");
    assert_eq!(m.version, "0.2.0");
    assert_eq!(m.requires, vec!["typescript"]);
    assert_eq!(
        m.files,
        vec!["src/index.step.ts", "app_step.py", "package.json", ".env", ".gitignore"]
    );
    assert_eq!(m.language_files.typescript, vec!["*.step.ts"]);

    // Every packed file is served under its template-relative path.
    assert_eq!(cache.files.get("src/index.step.ts").unwrap().as_slice(), b"export {};\n");
    assert_eq!(cache.files.get(".gitignore").unwrap().as_slice(), b"target/\n");
    assert_eq!(cache.files.get(".env").unwrap().as_slice(), b"KEY=value\n");
    assert!(cache.files.get("template.yaml").is_some());
    assert!(cache.files.get("absent.txt").is_none());
}

#[test]
fn missing_source_files_are_skipped_not_fatal() {
    let plan = plan_local_zip(BASIC_YAML, "basic", &shared_files()).unwrap();
    let shared_contents = vec![None];
    let file_contents = vec![Some(b"export {};\n".to_vec()), None, None, None];
    let zip_bytes = build_local_zip("basic", &plan, &shared_contents, &file_contents).unwrap();
    let cache = extract_zip_to_cache(zip_bytes, "basic").unwrap();
    // The manifest still lists every file, but only present ones are packed.
    assert_eq!(cache.manifest.files.len(), 5);
    assert!(cache.files.get("src/index.step.ts").is_some());
    assert!(cache.files.get("app_step.py").is_none());
    assert!(cache.files.get(".gitignore").is_none());
}

#[test]
fn duplicate_planned_paths_fail_the_build() {
    // Two entries under the same path violate the archive format: the build
    // reports the failure rather than packing an ambiguous package.
    let text = "name: a\ndescription: b\nversion: 0.1.0\nfiles: [\"a.txt\", \"a.txt\"]\n";
    let plan = plan_local_zip(text, "t", &Vec::new()).unwrap();
    let contents = vec![Some(b"one".to_vec()), Some(b"two".to_vec())];
    let r = build_local_zip("t", &plan, &Vec::new(), &contents);
    assert!(matches!(r, Err(TemplateError::Io { .. })));
}

#[test]
fn zip_without_manifest_is_malformed() {
    let r = extract_zip_to_cache(b"not a zip at all".to_vec(), "basic");
    assert!(matches!(r, Err(TemplateError::Parse { .. })));
}

#[test]
fn fetcher_caches_and_serves() {
    let mut fetcher = TemplateFetcher::from_local("templates".to_string());
    assert!(!fetcher.is_cached("basic"));
    assert!(matches!(
        fetcher.fetch_template_manifest("basic"),
        Err(TemplateError::TemplateNotFound { .. })
    ));

    fetcher.cache_template_zip("basic", build_basic_zip()).unwrap();
    assert!(fetcher.is_cached("basic"));

    let m = fetcher.fetch_template_manifest("basic").unwrap();
    assert_eq!(m.name, "Basic");

    let bytes = fetcher.fetch_file_bytes("basic", "package.json").unwrap();
    assert_eq!(bytes, b"{}\n");

    assert!(matches!(
        fetcher.fetch_file_bytes("basic", "no/such/file"),
        Err(TemplateError::FileNotFound { .. })
    ));
    assert!(matches!(
        fetcher.fetch_file_bytes("other", "package.json"),
        Err(TemplateError::TemplateNotFound { .. })
    ));

    // Caching again is a no-op, even with different bytes.
    fetcher.cache_template_zip("basic", b"garbage".to_vec()).unwrap();
    assert_eq!(fetcher.fetch_template_manifest("basic").unwrap().name, "Basic");
}

#[test]
fn remote_urls_append_one_segment_and_keep_the_query() {
    let source = TemplateSource::remote(
        "https://api.example.com/repos/x/contents/templates?ref=main",
    )
    .unwrap();
    let fetcher = TemplateFetcher::new(source);
    assert_eq!(
        fetcher.root_manifest_url().unwrap(),
        "https://api.example.com/repos/x/contents/templates/template.yaml?ref=main"
    );
    assert_eq!(
        fetcher.template_zip_url("basic").unwrap(),
        "https://api.example.com/repos/x/contents/templates/basic.zip?ref=main"
    );

    // A trailing slash does not produce an empty segment.
    let source = TemplateSource::remote("https://example.com/templates/").unwrap();
    let fetcher = TemplateFetcher::new(source);
    assert_eq!(
        fetcher.root_manifest_url().unwrap(),
        "https://example.com/templates/template.yaml"
    );

    // A local source has no URLs.
    let fetcher = TemplateFetcher::from_local("dir".to_string());
    assert!(fetcher.root_manifest_url().is_none());
    assert!(fetcher.template_zip_url("basic").is_none());
}

#[test]
fn invalid_remote_url_is_a_configuration_error() {
    let r = TemplateSource::remote("not a url");
    assert!(matches!(r, Err(TemplateError::SourceConfig { .. })));
}

#[test]
fn source_from_config_prefers_the_environment_url() {
    let config = scaffolder::product::IiiConfig.config();
    // Without an override the product's default URL is used.
    let fetcher = TemplateFetcher::from_config(&config, None).unwrap();
    assert!(matches!(fetcher.source(), TemplateSource::Remote(_)));
    // An override replaces it, and a broken override is a configuration error.
    let r = TemplateFetcher::from_config(&config, Some("https://example.com/t".to_string()));
    assert!(r.is_ok());
    let r = TemplateFetcher::from_config(&config, Some("not a url".to_string()));
    assert!(matches!(r, Err(TemplateError::SourceConfig { .. })));
}

#[test]
fn fetch_file_decodes_text() {
    let mut fetcher = TemplateFetcher::from_local("templates".to_string());
    fetcher.cache_template_zip("basic", build_basic_zip()).unwrap();
    let text = fetcher.fetch_file("basic", "package.json").unwrap();
    assert_eq!(text, "{}\n");
    assert!(matches!(
        fetcher.fetch_file("basic", "missing"),
        Err(TemplateError::FileNotFound { .. })
    ));
}

#[test]
fn end_to_end_typescript_selection() {
    let mut fetcher = TemplateFetcher::from_local("templates".to_string());
    fetcher.cache_template_zip("basic", build_basic_zip()).unwrap();
    let manifest = fetcher.fetch_template_manifest("basic").unwrap();

    // Merge the (empty) root rules with the template's own.
    let mut language_files = scaffolder::manifest::LanguageFiles::new();
    language_files.merge(&manifest.language_files);

    let selected = vec![Language::TypeScript];
    let copied = copy_template(&fetcher, "basic", &manifest, &selected, &language_files).unwrap();
    let paths: Vec<&str> = copied.iter().map(|c| c.path.as_str()).collect();
    // app_step.py is excluded; .gitignore matches no bucket and is excluded.
    assert_eq!(paths, vec!["src/index.step.ts", "package.json", ".env"]);
    assert_eq!(copied[0].contents, b"export {};\n");
    assert_eq!(copied[2].contents, b"KEY=value\n");

    let previewed = preview_files(&manifest, &selected, &language_files);
    assert_eq!(previewed, vec!["src/index.step.ts", "package.json", ".env"]);
}

#[test]
fn end_to_end_typescript_and_python_selection() {
    let mut fetcher = TemplateFetcher::from_local("templates".to_string());
    fetcher.cache_template_zip("basic", build_basic_zip()).unwrap();
    let manifest = fetcher.fetch_template_manifest("basic").unwrap();
    let language_files = manifest.language_files.duplicate();

    let selected = vec![Language::TypeScript, Language::Python];
    let copied = copy_template(&fetcher, "basic", &manifest, &selected, &language_files).unwrap();
    let paths: Vec<&str> = copied.iter().map(|c| c.path.as_str()).collect();
    assert_eq!(
        paths,
        vec!["src/index.step.ts", "app_step.py", "package.json", ".env"]
    );
}

#[test]
fn copy_engine_is_deterministic() {
    let mut fetcher = TemplateFetcher::from_local("templates".to_string());
    fetcher.cache_template_zip("basic", build_basic_zip()).unwrap();
    let manifest = fetcher.fetch_template_manifest("basic").unwrap();
    let language_files = manifest.language_files.duplicate();
    let selected = vec![Language::TypeScript];

    let first = copy_template(&fetcher, "basic", &manifest, &selected, &language_files).unwrap();
    let second = copy_template(&fetcher, "basic", &manifest, &selected, &language_files).unwrap();
    assert_eq!(first.len(), second.len());
    for (a, b) in first.iter().zip(second.iter()) {
        assert_eq!(a.path, b.path);
        assert_eq!(a.contents, b.contents);
    }
}

#[test]
fn copy_fails_when_an_included_file_is_missing_from_the_package() {
    let mut fetcher = TemplateFetcher::from_local("templates".to_string());
    let plan = plan_local_zip(BASIC_YAML, "basic", &Vec::new()).unwrap();
    // Pack nothing but the manifest: every included file is absent.
    let file_contents = vec![None, None, None, None];
    let zip_bytes = build_local_zip("basic", &plan, &Vec::new(), &file_contents).unwrap();
    fetcher.cache_template_zip("basic", zip_bytes).unwrap();

    let manifest = fetcher.fetch_template_manifest("basic").unwrap();
    let language_files = manifest.language_files.duplicate();
    let r = copy_template(
        &fetcher,
        "basic",
        &manifest,
        &vec![Language::TypeScript],
        &language_files,
    );
    assert!(matches!(r, Err(TemplateError::FileNotFound { .. })));
    if let Err(TemplateError::FileNotFound { template, path }) = r {
        assert_eq!(template, "basic");
        assert_eq!(path, "src/index.step.ts");
    }

    // The only included file for the empty selection is the common-bucket
    // .env, which is also missing from the package.
    let r = copy_template(&fetcher, "basic", &manifest, &Vec::new(), &language_files);
    assert!(matches!(r, Err(TemplateError::FileNotFound { .. })));
}

#[test]
fn copy_with_nothing_included_needs_no_cache() {
    // When no file of the manifest is included, the copy engine never
    // touches the cache, and succeeds with an empty list even for a
    // template that was never fetched.
    let fetcher = TemplateFetcher::from_local("templates".to_string());
    let text = "name: a\ndescription: b\nversion: 0.1.0\nfiles: [\"x_step.py\"]\nlanguage_files:\n  python: [\"*_step.py\"]\n";
    let manifest = parse_template_manifest(text, "lonely").unwrap();
    let language_files = manifest.language_files.duplicate();
    let r = copy_template(
        &fetcher,
        "lonely",
        &manifest,
        &vec![Language::TypeScript],
        &language_files,
    )
    .unwrap();
    assert!(r.is_empty());
}
