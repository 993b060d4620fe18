//! The language enumeration, runtime detection results, and the decision
//! rules that turn probed runtime availability into a report or a list of
//! missing requirements.

use vstd::prelude::*;

use crate::text::{str_ci_equal, str_eq_ignore_ascii_case};

verus! {

/// Supported languages and their runtimes.
#[derive(Debug, Clone, Copy, PartialEq, Eq, Hash, Structural)]
pub enum Language {
    TypeScript,
    JavaScript,
    Python,
    Rust,
}

/// The display name of a language.
pub open spec fn display_name_spec(l: Language) -> Seq<char> {
    match l {
        Language::TypeScript => "TypeScript"@,
        Language::JavaScript => "JavaScript"@,
        Language::Python => "Python"@,
        Language::Rust => "Rust"@,
    }
}

impl Language {
    /// Human-readable name of the language.
    pub fn display_name(&self) -> (r: &'static str)
        ensures
            r@ == display_name_spec(*self),
    {
        match self {
            Language::TypeScript => "TypeScript",
            Language::JavaScript => "JavaScript",
            Language::Python => "Python",
            Language::Rust => "Rust",
        }
    }

    /// File extensions that correspond to this language in the default
    /// rule tables.
    pub fn file_extensions(&self) -> (r: Vec<&'static str>)
        ensures
            r@.map_values(|s: &'static str| s@) == file_extensions_spec(*self),
    {
        let mut r: Vec<&'static str> = Vec::new();
        match self {
            Language::TypeScript => {
                r.push(".step.ts");
                r.push(".step.tsx");
                r.push(".config.ts");
            },
            Language::JavaScript => {
                r.push(".step.js");
                r.push(".step.jsx");
            },
            Language::Python => {
                r.push("_step.py");
            },
            Language::Rust => {},
        }
        proof {
            assert(r@.map_values(|s: &'static str| s@) =~= file_extensions_spec(*self));
        }
        r
    }
}

/// The extensions associated with each language.
pub open spec fn file_extensions_spec(l: Language) -> Seq<Seq<char>> {
    match l {
        Language::TypeScript => seq![".step.ts"@, ".step.tsx"@, ".config.ts"@],
        Language::JavaScript => seq![".step.js"@, ".step.jsx"@],
        Language::Python => seq!["_step.py"@],
        Language::Rust => Seq::empty(),
    }
}

/// The language a name denotes, compared ignoring ASCII case: the full name
/// or its two-letter abbreviation.
pub open spec fn parse_language_spec(s: Seq<char>) -> Option<Language> {
    if str_ci_equal(s, "typescript"@) || str_ci_equal(s, "ts"@) {
        Some(Language::TypeScript)
    } else if str_ci_equal(s, "javascript"@) || str_ci_equal(s, "js"@) {
        Some(Language::JavaScript)
    } else if str_ci_equal(s, "python"@) || str_ci_equal(s, "py"@) {
        Some(Language::Python)
    } else if str_ci_equal(s, "rust"@) || str_ci_equal(s, "rs"@) {
        Some(Language::Rust)
    } else {
        None
    }
}

/// Parse a language name (or its abbreviation) into a [`Language`],
/// ignoring ASCII case.
pub fn parse_language(s: &str) -> (r: Option<Language>)
    ensures
        r == parse_language_spec(s@),
{
    if str_eq_ignore_ascii_case(s, "typescript") || str_eq_ignore_ascii_case(s, "ts") {
        Some(Language::TypeScript)
    } else if str_eq_ignore_ascii_case(s, "javascript") || str_eq_ignore_ascii_case(s, "js") {
        Some(Language::JavaScript)
    } else if str_eq_ignore_ascii_case(s, "python") || str_eq_ignore_ascii_case(s, "py") {
        Some(Language::Python)
    } else if str_eq_ignore_ascii_case(s, "rust") || str_eq_ignore_ascii_case(s, "rs") {
        Some(Language::Rust)
    } else {
        None
    }
}

/// Whether a language is in the selection.
pub fn contains_language(selection: &Vec<Language>, l: Language) -> (r: bool)
    ensures
        r == selection@.contains(l),
{
    let mut i: usize = 0;
    while i < selection.len()
        invariant
            i <= selection.len(),
            forall|j: int| 0 <= j < i ==> selection@[j] != l,
        decreases selection.len() - i,
    {
        if selection[i] == l {
            return true;
        }
        i += 1;
    }
    false
}

/// The result of probing one runtime executable.
#[derive(Debug)]
pub struct RuntimeInfo {
    /// Name of the runtime.
    pub name: &'static str,
    /// Reported version, when the probe succeeded.
    pub version: Option<String>,
    /// Whether the runtime was found.
    pub available: bool,
}

/// Mathematical model of a probe result.
#[verifier::ext_equal]
pub struct RuntimeInfoModel {
    pub name: Seq<char>,
    pub version: Option<Seq<char>>,
    pub available: bool,
}

impl View for RuntimeInfo {
    type V = RuntimeInfoModel;

    open spec fn view(&self) -> RuntimeInfoModel {
        RuntimeInfoModel {
            name: self.name@,
            version: match self.version {
                Some(v) => Some(v@),
                None => None,
            },
            available: self.available,
        }
    }
}

/// The probe results for every runtime the decision rules look at.
pub struct RuntimeProbes {
    pub bun: RuntimeInfo,
    pub node: RuntimeInfo,
    pub python: RuntimeInfo,
    pub cargo: RuntimeInfo,
}

/// Mathematical model of the probe results.
#[verifier::ext_equal]
pub struct ProbesModel {
    pub bun: RuntimeInfoModel,
    pub node: RuntimeInfoModel,
    pub python: RuntimeInfoModel,
    pub cargo: RuntimeInfoModel,
}

impl View for RuntimeProbes {
    type V = ProbesModel;

    open spec fn view(&self) -> ProbesModel {
        ProbesModel {
            bun: self.bun@,
            node: self.node@,
            python: self.python@,
            cargo: self.cargo@,
        }
    }
}

/// The views of a report list.
pub open spec fn infos_view(s: Seq<RuntimeInfo>) -> Seq<RuntimeInfoModel> {
    s.map_values(|r: RuntimeInfo| r@)
}

/// TypeScript or JavaScript is selected, so a JavaScript runtime is needed.
pub open spec fn needs_js_runtime(langs: Seq<Language>) -> bool {
    langs.contains(Language::TypeScript) || langs.contains(Language::JavaScript)
}

/// Every selected JavaScript-family language is advisory.
pub open spec fn js_advisory(langs: Seq<Language>, advisory: Seq<Language>) -> bool {
    &&& (langs.contains(Language::TypeScript) ==> advisory.contains(Language::TypeScript))
    &&& (langs.contains(Language::JavaScript) ==> advisory.contains(Language::JavaScript))
}

/// A report line for a runtime that was not found.
pub open spec fn unavailable_info(name: Seq<char>) -> RuntimeInfoModel {
    RuntimeInfoModel { name, version: None, available: false }
}

/// The runtime report: for the JavaScript family, every available runtime
/// (Bun then Node.js), or an advisory line when none is available and every
/// selected JavaScript-family language is advisory; then Python and Rust,
/// each reported when available, as advisory when selected advisorily, and
/// otherwise left to the missing list.
pub open spec fn runtime_report(
    langs: Seq<Language>,
    advisory: Seq<Language>,
    p: ProbesModel,
) -> Seq<RuntimeInfoModel> {
    (if needs_js_runtime(langs) {
        (if p.bun.available {
            seq![p.bun]
        } else {
            Seq::<RuntimeInfoModel>::empty()
        }) + (if p.node.available {
            seq![p.node]
        } else {
            Seq::<RuntimeInfoModel>::empty()
        }) + (if !p.bun.available && !p.node.available && js_advisory(langs, advisory) {
            seq![unavailable_info("Node.js or Bun"@)]
        } else {
            Seq::<RuntimeInfoModel>::empty()
        })
    } else {
        Seq::<RuntimeInfoModel>::empty()
    }) + (if langs.contains(Language::Python) {
        if p.python.available {
            seq![p.python]
        } else if advisory.contains(Language::Python) {
            seq![unavailable_info("Python 3"@)]
        } else {
            Seq::<RuntimeInfoModel>::empty()
        }
    } else {
        Seq::<RuntimeInfoModel>::empty()
    }) + (if langs.contains(Language::Rust) {
        if p.cargo.available {
            seq![p.cargo]
        } else if advisory.contains(Language::Rust) {
            seq![unavailable_info("Cargo"@)]
        } else {
            Seq::<RuntimeInfoModel>::empty()
        }
    } else {
        Seq::<RuntimeInfoModel>::empty()
    })
}

/// The runtimes that are required but missing: a JavaScript runtime when
/// the family is selected non-advisorily and neither Bun nor Node.js was
/// found, and likewise Python and Cargo.
pub open spec fn missing_runtimes(
    langs: Seq<Language>,
    advisory: Seq<Language>,
    p: ProbesModel,
) -> Seq<Seq<char>> {
    (if needs_js_runtime(langs) && !p.bun.available && !p.node.available && !js_advisory(
        langs,
        advisory,
    ) {
        seq!["Node.js or Bun (install from https://nodejs.org or https://bun.sh)"@]
    } else {
        Seq::<Seq<char>>::empty()
    }) + (if langs.contains(Language::Python) && !p.python.available && !advisory.contains(
        Language::Python,
    ) {
        seq!["Python 3 (install from https://python.org)"@]
    } else {
        Seq::<Seq<char>>::empty()
    }) + (if langs.contains(Language::Rust) && !p.cargo.available && !advisory.contains(
        Language::Rust,
    ) {
        seq!["Cargo/Rust (install from https://rustup.rs)"@]
    } else {
        Seq::<Seq<char>>::empty()
    })
}

/// Decide the runtime report from probe results. Languages in `advisory`
/// get their availability reported but never cause failure; for the others
/// a missing runtime puts an instruction on the missing list. Succeeds with
/// the report exactly when nothing required is missing, and fails with the
/// missing list otherwise.
#[verifier::rlimit(60)]
pub fn check_runtimes_with_advisory(
    languages: &Vec<Language>,
    advisory: &Vec<Language>,
    probes: RuntimeProbes,
) -> (r: Result<Vec<RuntimeInfo>, Vec<String>>)
    ensures
        r is Ok <==> missing_runtimes(languages@, advisory@, probes@).len() == 0,
        match r {
            Ok(v) => infos_view(v@) == runtime_report(languages@, advisory@, probes@),
            Err(m) => crate::manifest::patterns_view(m@) == missing_runtimes(
                languages@,
                advisory@,
                probes@,
            ),
        },
{
    let ghost pm = probes@;
    let RuntimeProbes { bun, node, python, cargo } = probes;
    let has_ts = contains_language(languages, Language::TypeScript);
    let has_js = contains_language(languages, Language::JavaScript);
    let needs_js = has_ts || has_js;
    let js_adv = (!has_ts || contains_language(advisory, Language::TypeScript)) && (!has_js
        || contains_language(advisory, Language::JavaScript));

    let mut results: Vec<RuntimeInfo> = Vec::new();
    let mut missing: Vec<String> = Vec::new();

    if needs_js {
        let any_js = bun.available || node.available;
        if bun.available {
            results.push(bun);
        }
        if node.available {
            results.push(node);
        }
        if !any_js {
            if js_adv {
                results.push(RuntimeInfo { name: "Node.js or Bun", version: None, available: false });
            } else {
                missing.push(
                    "Node.js or Bun (install from https://nodejs.org or https://bun.sh)".to_owned(),
                );
            }
        }
    }
    let ghost js_rep = (if needs_js_runtime(languages@) {
        (if pm.bun.available {
            seq![pm.bun]
        } else {
            Seq::<RuntimeInfoModel>::empty()
        }) + (if pm.node.available {
            seq![pm.node]
        } else {
            Seq::<RuntimeInfoModel>::empty()
        }) + (if !pm.bun.available && !pm.node.available && js_advisory(languages@, advisory@) {
            seq![unavailable_info("Node.js or Bun"@)]
        } else {
            Seq::<RuntimeInfoModel>::empty()
        })
    } else {
        Seq::<RuntimeInfoModel>::empty()
    });
    let ghost js_miss = (if needs_js_runtime(languages@) && !pm.bun.available && !pm.node.available
        && !js_advisory(languages@, advisory@) {
        seq!["Node.js or Bun (install from https://nodejs.org or https://bun.sh)"@]
    } else {
        Seq::<Seq<char>>::empty()
    });
    proof {
        assert(infos_view(results@) =~= js_rep);
        assert(crate::manifest::patterns_view(missing@) =~= js_miss);
    }

    if contains_language(languages, Language::Python) {
        if python.available {
            results.push(python);
        } else if contains_language(advisory, Language::Python) {
            results.push(RuntimeInfo { name: "Python 3", version: None, available: false });
        } else {
            missing.push("Python 3 (install from https://python.org)".to_owned());
        }
    }
    let ghost py_rep = (if languages@.contains(Language::Python) {
        if pm.python.available {
            seq![pm.python]
        } else if advisory@.contains(Language::Python) {
            seq![unavailable_info("Python 3"@)]
        } else {
            Seq::<RuntimeInfoModel>::empty()
        }
    } else {
        Seq::<RuntimeInfoModel>::empty()
    });
    let ghost py_miss = (if languages@.contains(Language::Python) && !pm.python.available
        && !advisory@.contains(Language::Python) {
        seq!["Python 3 (install from https://python.org)"@]
    } else {
        Seq::<Seq<char>>::empty()
    });
    proof {
        assert(infos_view(results@) =~= js_rep + py_rep);
        assert(crate::manifest::patterns_view(missing@) =~= js_miss + py_miss);
    }

    if contains_language(languages, Language::Rust) {
        if cargo.available {
            results.push(cargo);
        } else if contains_language(advisory, Language::Rust) {
            results.push(RuntimeInfo { name: "Cargo", version: None, available: false });
        } else {
            missing.push("Cargo/Rust (install from https://rustup.rs)".to_owned());
        }
    }
    let ghost rust_rep = (if languages@.contains(Language::Rust) {
        if pm.cargo.available {
            seq![pm.cargo]
        } else if advisory@.contains(Language::Rust) {
            seq![unavailable_info("Cargo"@)]
        } else {
            Seq::<RuntimeInfoModel>::empty()
        }
    } else {
        Seq::<RuntimeInfoModel>::empty()
    });
    let ghost rust_miss = (if languages@.contains(Language::Rust) && !pm.cargo.available
        && !advisory@.contains(Language::Rust) {
        seq!["Cargo/Rust (install from https://rustup.rs)"@]
    } else {
        Seq::<Seq<char>>::empty()
    });
    proof {
        assert(infos_view(results@) =~= js_rep + py_rep + rust_rep);
        assert(crate::manifest::patterns_view(missing@) =~= js_miss + py_miss + rust_miss);
        assert(runtime_report(languages@, advisory@, pm) == js_rep + py_rep + rust_rep);
        assert(missing_runtimes(languages@, advisory@, pm) == js_miss + py_miss + rust_miss);
    }

    if missing.len() == 0 {
        Ok(results)
    } else {
        Err(missing)
    }
}

/// Decide the runtime report with no advisory languages: every selected
/// language's runtime is required.
pub fn check_runtimes(languages: &Vec<Language>, probes: RuntimeProbes) -> (r: Result<
    Vec<RuntimeInfo>,
    Vec<String>,
>)
    ensures
        r is Ok <==> missing_runtimes(languages@, Seq::<Language>::empty(), probes@).len() == 0,
        match r {
            Ok(v) => infos_view(v@) == runtime_report(
                languages@,
                Seq::<Language>::empty(),
                probes@,
            ),
            Err(m) => crate::manifest::patterns_view(m@) == missing_runtimes(
                languages@,
                Seq::<Language>::empty(),
                probes@,
            ),
        },
{
    let advisory: Vec<Language> = Vec::new();
    let r = check_runtimes_with_advisory(languages, &advisory, probes);
    proof {
        assert(advisory@ =~= Seq::<Language>::empty());
    }
    r
}

/// The views of an instruction list: tool name and install instruction.
pub open spec fn pairs_view(s: Seq<(&'static str, &'static str)>) -> Seq<(Seq<char>, Seq<char>)> {
    s.map_values(|p: (&'static str, &'static str)| (p.0@, p.1@))
}

/// The installation instructions for the runtimes that are selected but
/// unavailable.
pub open spec fn install_instructions_spec(
    langs: Seq<Language>,
    bun_available: bool,
    node_available: bool,
    python_available: bool,
) -> Seq<(Seq<char>, Seq<char>)> {
    (if needs_js_runtime(langs) && !bun_available && !node_available {
        seq![
            ("Bun"@, "curl -fsSL https://bun.sh/install | bash"@),
            ("Node.js"@, "https://nodejs.org/en/download/"@),
        ]
    } else {
        Seq::<(Seq<char>, Seq<char>)>::empty()
    }) + (if langs.contains(Language::Python) && !python_available {
        seq![("Python 3"@, "https://python.org/downloads/"@)]
    } else {
        Seq::<(Seq<char>, Seq<char>)>::empty()
    })
}

/// Installation instructions for missing runtimes, from probed availability.
pub fn get_install_instructions(
    languages: &Vec<Language>,
    bun_available: bool,
    node_available: bool,
    python_available: bool,
) -> (r: Vec<(&'static str, &'static str)>)
    ensures
        pairs_view(r@) == install_instructions_spec(
            languages@,
            bun_available,
            node_available,
            python_available,
        ),
{
    let mut instructions: Vec<(&'static str, &'static str)> = Vec::new();
    let has_ts = contains_language(languages, Language::TypeScript);
    let has_js = contains_language(languages, Language::JavaScript);
    if (has_ts || has_js) && !bun_available && !node_available {
        instructions.push(("Bun", "curl -fsSL https://bun.sh/install | bash"));
        instructions.push(("Node.js", "https://nodejs.org/en/download/"));
    }
    if contains_language(languages, Language::Python) && !python_available {
        instructions.push(("Python 3", "https://python.org/downloads/"));
    }
    proof {
        assert(pairs_view(instructions@) =~= install_instructions_spec(
            languages@,
            bun_available,
            node_available,
            python_available,
        ));
    }
    instructions
}

} // verus!
