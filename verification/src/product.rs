//! Product configuration: the identity, URLs and follow-up instructions of
//! each product built on the scaffolding core, as a plain record.

use vstd::prelude::*;
use vstd::string::*;

use crate::manifest::patterns_view;
use crate::runtime::{contains_language, Language};

verus! {

/// Configuration of one product: identity, template source, tool
/// requirement and documentation.
pub struct ProductConfig {
    /// Internal product name, used for commands and environment variables.
    pub name: &'static str,
    /// Human-readable display name.
    pub display_name: &'static str,
    /// Default URL for fetching templates.
    pub default_template_url: &'static str,
    /// Environment variable that overrides the template URL.
    pub template_url_env: &'static str,
    /// Whether the product requires the `iii` tool.
    pub requires_iii: bool,
    /// URL of the product documentation.
    pub docs_url: &'static str,
    /// Description shown in the command-line help.
    pub cli_description: &'static str,
    /// Upgrade command shown in version warnings.
    pub upgrade_command: &'static str,
}

impl ProductConfig {
    /// The user-agent string for HTTP requests: the product's name.
    pub fn user_agent(&self) -> (r: &'static str)
        ensures
            r@ == self.name@,
    {
        self.name
    }
}

/// The follow-up instructions after creating an `iii` project: change into
/// the directory when it is not the current one, then read the README.
pub open spec fn iii_next_steps_spec(dir: Seq<char>, in_current_dir: bool) -> Seq<Seq<char>> {
    (if in_current_dir {
        Seq::<Seq<char>>::empty()
    } else {
        seq!["cd "@ + dir]
    }) + seq!["Open README.md to get started"@]
}

/// The `iii` product.
pub struct IiiConfig;

impl IiiConfig {
    /// The product's configuration record.
    pub fn config(&self) -> (r: ProductConfig)
        ensures
            r.name@ == "iii"@,
            r.display_name@ == "iii"@,
            r.default_template_url@
                == "https://api.github.com/repos/MotiaDev/cli-tooling/contents/templates/iii"@,
            r.template_url_env@ == "III_TEMPLATE_URL"@,
            r.requires_iii == true,
            r.docs_url@ == "https://iii.dev/docs"@,
            r.cli_description@ == "CLI for scaffolding iii projects"@,
            r.upgrade_command@ == "cargo install iii-tools --force"@,
    {
        ProductConfig {
            name: "iii",
            display_name: "iii",
            default_template_url:
                "https://api.github.com/repos/MotiaDev/cli-tooling/contents/templates/iii",
            template_url_env: "III_TEMPLATE_URL",
            requires_iii: true,
            docs_url: "https://iii.dev/docs",
            cli_description: "CLI for scaffolding iii projects",
            upgrade_command: "cargo install iii-tools --force",
        }
    }

    /// The follow-up instructions after project creation; `in_current_dir`
    /// says whether the project directory is the caller's current one.
    pub fn next_steps(&self, dir: &str, in_current_dir: bool, langs: &Vec<Language>) -> (r: Vec<
        String,
    >)
        ensures
            patterns_view(r@) == iii_next_steps_spec(dir@, in_current_dir),
    {
        let mut steps: Vec<String> = Vec::new();
        if !in_current_dir {
            steps.push("cd ".to_owned().concat(dir));
        }
        steps.push("Open README.md to get started".to_owned());
        proof {
            assert(patterns_view(steps@) =~= iii_next_steps_spec(dir@, in_current_dir));
        }
        steps
    }
}

/// The follow-up instructions after creating a Motia project.
pub open spec fn motia_next_steps_spec(
    dir: Seq<char>,
    in_current_dir: bool,
    langs: Seq<Language>,
) -> Seq<Seq<char>> {
    let has_js_ts = langs.contains(Language::TypeScript) || langs.contains(Language::JavaScript);
    let has_python = langs.contains(Language::Python);
    seq!["iii -c iii.config.yaml"@] + (if in_current_dir {
        Seq::<Seq<char>>::empty()
    } else {
        seq!["cd "@ + dir]
    }) + (if has_js_ts {
        seq!["npm install @iii-dev/motia"@]
    } else {
        Seq::<Seq<char>>::empty()
    }) + (if has_python {
        seq![
            "Set up Python environment:\nuv venv && uv pip install -r requirements.txt\n-- or --\npython3 -m venv .venv && .venv/bin/pip install -r requirements.txt"@,
        ]
    } else {
        Seq::<Seq<char>>::empty()
    }) + (if has_js_ts {
        seq!["npm dev"@]
    } else {
        Seq::<Seq<char>>::empty()
    })
}

/// The Motia product.
pub struct MotiaConfig;

impl MotiaConfig {
    /// The product's configuration record.
    pub fn config(&self) -> (r: ProductConfig)
        ensures
            r.name@ == "motia"@,
            r.display_name@ == "Motia"@,
            r.default_template_url@
                == "https://raw.githubusercontent.com/iii-hq/cli-tooling/main/templates/motia"@,
            r.template_url_env@ == "MOTIA_TEMPLATE_URL"@,
            r.requires_iii == true,
            r.docs_url@ == "https://motia.dev/docs"@,
            r.cli_description@ == "CLI for scaffolding Motia projects with iii integration"@,
            r.upgrade_command@ == "cargo install motia-tools --force"@,
    {
        ProductConfig {
            name: "motia",
            display_name: "Motia",
            default_template_url:
                "https://raw.githubusercontent.com/iii-hq/cli-tooling/main/templates/motia",
            template_url_env: "MOTIA_TEMPLATE_URL",
            requires_iii: true,
            docs_url: "https://motia.dev/docs",
            cli_description: "CLI for scaffolding Motia projects with iii integration",
            upgrade_command: "cargo install motia-tools --force",
        }
    }

    /// The follow-up instructions after project creation: start the runtime,
    /// change into the directory when needed, then the per-language setup.
    pub fn next_steps(&self, dir: &str, in_current_dir: bool, langs: &Vec<Language>) -> (r: Vec<
        String,
    >)
        ensures
            patterns_view(r@) == motia_next_steps_spec(dir@, in_current_dir, langs@),
    {
        let has_ts = contains_language(langs, Language::TypeScript);
        let has_js = contains_language(langs, Language::JavaScript);
        let has_js_ts = has_ts || has_js;
        let has_python = contains_language(langs, Language::Python);

        let mut steps: Vec<String> = Vec::new();
        steps.push("iii -c iii.config.yaml".to_owned());
        if !in_current_dir {
            steps.push("cd ".to_owned().concat(dir));
        }
        if has_js_ts {
            steps.push("npm install @iii-dev/motia".to_owned());
        }
        if has_python {
            steps.push(
                "Set up Python environment:\nuv venv && uv pip install -r requirements.txt\n-- or --\npython3 -m venv .venv && .venv/bin/pip install -r requirements.txt".to_owned(),
            );
        }
        if has_js_ts {
            steps.push("npm dev".to_owned());
        }
        proof {
            assert(patterns_view(steps@) =~= motia_next_steps_spec(dir@, in_current_dir, langs@));
        }
        steps
    }
}

} // verus!
