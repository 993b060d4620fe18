//! Plain state for the interactive screens: the create-command arguments,
//! the directory input buffer, the tool-check menu, the language and
//! template selectors, and the summary with its follow-up steps. Rendering
//! and event plumbing live with the caller; every state transition here is
//! verified.

use vstd::prelude::*;
use vstd::string::*;

use crate::copier::{lemma_filter_take_step, lemma_filter_take_zero};
use crate::manifest::{names_contain_ci, patterns_view, TemplateManifest};
use crate::runtime::{contains_language, Language};

verus! {

broadcast use vstd::string::group_string_axioms;

/// Arguments of the create command.
pub struct CreateArgs {
    /// Local directory to use for templates instead of fetching remotely.
    pub template_dir: Option<String>,
    /// Template name to use.
    pub template: Option<String>,
    /// Project directory to create.
    pub directory: Option<String>,
    /// Languages to include.
    pub languages: Option<Vec<String>>,
    /// Skip the tool installation check.
    pub skip_tool_check: bool,
    /// Auto-confirm all prompts (non-interactive mode).
    pub yes: bool,
}

impl Default for CreateArgs {
    /// Arguments with nothing set: interactive defaults.
    fn default() -> (r: CreateArgs)
        ensures
            r.template_dir is None,
            r.template is None,
            r.directory is None,
            r.languages is None,
            !r.skip_tool_check,
            !r.yes,
    {
        CreateArgs {
            template_dir: None,
            template: None,
            directory: None,
            languages: None,
            skip_tool_check: false,
            yes: false,
        }
    }
}

/// Relies on `String::from(char)`: a string holding exactly that character.
#[verifier::external_body]
fn char_to_string(c: char) -> (r: String)
    ensures
        r@ == seq![c],
{
    String::from(c)
}

/// The directory input screen: an edit buffer with a character cursor.
pub struct DirectoryScreen {
    /// The text typed so far.
    pub input: String,
    /// Cursor position, counted in characters.
    pub cursor_position: usize,
    /// The caller's current directory, used to resolve relative input.
    pub current_dir: String,
    /// The current validation message, if any.
    pub error: Option<String>,
}

impl DirectoryScreen {
    /// The buffer is well formed: the cursor sits inside the text.
    pub open spec fn wf(self) -> bool {
        self.cursor_position <= self.input@.len()
    }

    /// An empty buffer over the given current directory.
    pub fn new(current_dir: String) -> (r: DirectoryScreen)
        ensures
            r.wf(),
            r.input@ == Seq::<char>::empty(),
            r.cursor_position == 0,
            r.current_dir@ == current_dir@,
            r.error is None,
    {
        DirectoryScreen { input: String::new(), cursor_position: 0, current_dir, error: None }
    }

    /// Insert a character at the cursor and advance it; any validation
    /// message is cleared.
    pub fn insert_char(&mut self, c: char)
        requires
            old(self).wf(),
            old(self).input@.len() < usize::MAX,
        ensures
            final(self).wf(),
            final(self).input@ == old(self).input@.take(old(self).cursor_position as int) + seq![c]
                + old(self).input@.skip(old(self).cursor_position as int),
            final(self).cursor_position == old(self).cursor_position + 1,
            final(self).current_dir@ == old(self).current_dir@,
            final(self).error is None,
    {
        let len = self.input.as_str().unicode_len();
        let pre = self.input.as_str().substring_char(0, self.cursor_position).to_owned();
        let post = self.input.as_str().substring_char(self.cursor_position, len).to_owned();
        let mid = char_to_string(c);
        let combined = pre.concat(mid.as_str()).concat(post.as_str());
        proof {
            assert(self.input@.subrange(0, self.cursor_position as int) =~= self.input@.take(
                self.cursor_position as int,
            ));
            assert(self.input@.subrange(self.cursor_position as int, self.input@.len() as int)
                =~= self.input@.skip(self.cursor_position as int));
        }
        self.input = combined;
        self.cursor_position = self.cursor_position + 1;
        self.error = None;
    }

    /// Delete the character before the cursor, when there is one, and move
    /// the cursor back; any validation message is cleared.
    pub fn delete_char(&mut self)
        requires
            old(self).wf(),
        ensures
            final(self).wf(),
            old(self).cursor_position > 0 ==> (final(self).input@ == old(self).input@.take(
                old(self).cursor_position - 1,
            ) + old(self).input@.skip(old(self).cursor_position as int)
                && final(self).cursor_position == old(self).cursor_position - 1
                && final(self).error is None),
            old(self).cursor_position == 0 ==> *final(self) == *old(self),
            final(self).current_dir@ == old(self).current_dir@,
    {
        if self.cursor_position > 0 {
            let len = self.input.as_str().unicode_len();
            let pre = self.input.as_str().substring_char(0, self.cursor_position - 1).to_owned();
            let post = self.input.as_str().substring_char(self.cursor_position, len).to_owned();
            let combined = pre.concat(post.as_str());
            proof {
                assert(self.input@.subrange(0, self.cursor_position - 1) =~= self.input@.take(
                    self.cursor_position - 1,
                ));
                assert(self.input@.subrange(self.cursor_position as int, self.input@.len() as int)
                    =~= self.input@.skip(self.cursor_position as int));
            }
            self.input = combined;
            self.cursor_position = self.cursor_position - 1;
            self.error = None;
        }
    }

    /// Move the cursor one character left, stopping at the start.
    pub fn move_cursor_left(&mut self)
        ensures
            final(self).cursor_position == if old(self).cursor_position > 0 {
                (old(self).cursor_position - 1) as usize
            } else {
                0usize
            },
            final(self).input@ == old(self).input@,
            final(self).current_dir@ == old(self).current_dir@,
            final(self).error == old(self).error,
    {
        if self.cursor_position > 0 {
            self.cursor_position = self.cursor_position - 1;
        }
    }

    /// Move the cursor one character right, stopping at the end.
    pub fn move_cursor_right(&mut self)
        requires
            old(self).wf(),
        ensures
            final(self).wf(),
            final(self).cursor_position == if old(self).cursor_position < old(self).input@.len() {
                old(self).cursor_position + 1
            } else {
                old(self).cursor_position as int
            },
            final(self).input@ == old(self).input@,
            final(self).current_dir@ == old(self).current_dir@,
            final(self).error == old(self).error,
    {
        let len = self.input.as_str().unicode_len();
        if self.cursor_position < len {
            self.cursor_position = self.cursor_position + 1;
        }
    }

    /// The resolved project path: the current directory for empty or `.`
    /// input; the input itself when it is absolute (starts with `/`); and
    /// the input joined under the current directory otherwise.
    pub open spec fn resolved_path(input: Seq<char>, current: Seq<char>) -> Seq<char> {
        if input.len() == 0 || input == "."@ {
            current
        } else if input.len() > 0 && input.first() == '/' {
            input
        } else if current.len() > 0 && current.last() == '/' {
            current + input
        } else {
            current + "/"@ + input
        }
    }

    /// The resolved project path for the typed input.
    pub fn get_path(&self) -> (r: String)
        ensures
            r@ == Self::resolved_path(self.input@, self.current_dir@),
    {
        let len = self.input.as_str().unicode_len();
        if len == 0 || crate::text::str_eq(self.input.as_str(), ".") {
            return self.current_dir.clone();
        }
        if self.input.as_str().get_char(0) == '/' {
            return self.input.clone();
        }
        let clen = self.current_dir.as_str().unicode_len();
        if clen > 0 && self.current_dir.as_str().get_char(clen - 1) == '/' {
            self.current_dir.clone().concat(self.input.as_str())
        } else {
            self.current_dir.clone().concat("/").concat(self.input.as_str())
        }
    }
}

/// The choices offered when the `iii` tool is not installed.
#[derive(Debug, Clone, Copy, PartialEq, Eq, Structural)]
pub enum IiiOption {
    OpenDocs,
    AutoInstall,
    Skip,
}

/// The label of a tool-check choice.
pub open spec fn iii_option_label_spec(o: IiiOption) -> Seq<char> {
    match o {
        IiiOption::OpenDocs => "Open documentation (https://iii.sh)"@,
        IiiOption::AutoInstall => "Automatically install iii"@,
        IiiOption::Skip => "Skip and continue without iii"@,
    }
}

impl IiiOption {
    /// The menu label of this choice.
    pub fn label(&self) -> (r: &'static str)
        ensures
            r@ == iii_option_label_spec(*self),
    {
        match self {
            IiiOption::OpenDocs => "Open documentation (https://iii.sh)",
            IiiOption::AutoInstall => "Automatically install iii",
            IiiOption::Skip => "Skip and continue without iii",
        }
    }

    /// All choices, in menu order.
    pub fn all() -> (r: Vec<IiiOption>)
        ensures
            r@ == seq![IiiOption::OpenDocs, IiiOption::AutoInstall, IiiOption::Skip],
    {
        let mut r: Vec<IiiOption> = Vec::new();
        r.push(IiiOption::OpenDocs);
        r.push(IiiOption::AutoInstall);
        r.push(IiiOption::Skip);
        proof {
            assert(r@ =~= seq![IiiOption::OpenDocs, IiiOption::AutoInstall, IiiOption::Skip]);
        }
        r
    }
}

/// The tool-check screen: the probed installation state and the highlighted
/// menu choice.
pub struct IiiCheckScreen {
    /// Whether the tool was found.
    pub iii_installed: bool,
    /// Its reported version, when found.
    pub iii_version: Option<String>,
    /// Index of the highlighted choice.
    pub selected: usize,
}

impl IiiCheckScreen {
    /// The highlighted index points at one of the three choices.
    pub open spec fn wf(self) -> bool {
        self.selected < 3
    }

    /// A screen for the probed installation state, with the first choice
    /// highlighted.
    pub fn new(installed: bool, version: Option<String>) -> (r: IiiCheckScreen)
        ensures
            r.wf(),
            r.iii_installed == installed,
            r.iii_version == version,
            r.selected == 0,
    {
        IiiCheckScreen { iii_installed: installed, iii_version: version, selected: 0 }
    }

    /// Highlight the next choice, wrapping to the first.
    pub fn next(&mut self)
        requires
            old(self).wf(),
        ensures
            final(self).wf(),
            final(self).selected == (old(self).selected + 1) % 3,
            final(self).iii_installed == old(self).iii_installed,
            final(self).iii_version == old(self).iii_version,
    {
        self.selected = (self.selected + 1) % 3;
    }

    /// Highlight the previous choice, wrapping to the last.
    pub fn previous(&mut self)
        requires
            old(self).wf(),
        ensures
            final(self).wf(),
            final(self).selected == if old(self).selected == 0 {
                2int
            } else {
                old(self).selected - 1
            },
            final(self).iii_installed == old(self).iii_installed,
            final(self).iii_version == old(self).iii_version,
    {
        if self.selected == 0 {
            self.selected = 2;
        } else {
            self.selected = self.selected - 1;
        }
    }

    /// The highlighted choice.
    pub fn selected_option(&self) -> (r: IiiOption)
        requires
            self.wf(),
        ensures
            r == seq![IiiOption::OpenDocs, IiiOption::AutoInstall, IiiOption::Skip][self.selected as int],
    {
        if self.selected == 0 {
            IiiOption::OpenDocs
        } else if self.selected == 1 {
            IiiOption::AutoInstall
        } else {
            IiiOption::Skip
        }
    }
}

/// One selectable language and its state.
#[derive(Debug, Clone, Copy, PartialEq, Eq, Structural)]
pub struct LanguageOption {
    /// The language offered.
    pub language: Language,
    /// Whether it is currently selected.
    pub selected: bool,
    /// Whether it cannot be deselected.
    pub required: bool,
}

/// The option row a template's manifest yields for one language: offered
/// when the language is required or optional, pre-selected and locked
/// exactly when required.
pub open spec fn language_option_spec(m: crate::manifest::ManifestModel, l: Language) -> Seq<
    LanguageOption,
> {
    let name = crate::runtime::display_name_spec(l);
    if names_contain_ci(m.requires, name) || names_contain_ci(m.optional, name) {
        seq![
            LanguageOption {
                language: l,
                selected: names_contain_ci(m.requires, name),
                required: names_contain_ci(m.requires, name),
            },
        ]
    } else {
        Seq::<LanguageOption>::empty()
    }
}

/// The language selection screen.
pub struct LanguageSelectScreen {
    /// The offered languages, in the fixed order TypeScript, JavaScript,
    /// Python, Rust (each only when the template knows it).
    pub options: Vec<LanguageOption>,
    /// Index of the highlighted row.
    pub cursor: usize,
}

impl LanguageSelectScreen {
    /// The cursor points at a row, or at zero when there are none.
    pub open spec fn wf(self) -> bool {
        self.cursor < self.options@.len() || (self.cursor == 0 && self.options@.len() == 0)
    }

    /// The screen a manifest yields: one row per language the template
    /// requires or offers, required ones pre-selected and locked.
    pub fn new(manifest: &TemplateManifest) -> (r: LanguageSelectScreen)
        ensures
            r.wf(),
            r.cursor == 0,
            r.options@ == language_option_spec(manifest@, Language::TypeScript)
                + language_option_spec(manifest@, Language::JavaScript) + language_option_spec(
                manifest@,
                Language::Python,
            ) + language_option_spec(manifest@, Language::Rust),
    {
        let mut options: Vec<LanguageOption> = Vec::new();
        if manifest.is_required("TypeScript") || manifest.is_optional("TypeScript") {
            let required = manifest.is_required("TypeScript");
            options.push(
                LanguageOption { language: Language::TypeScript, selected: required, required },
            );
        }
        if manifest.is_required("JavaScript") || manifest.is_optional("JavaScript") {
            let required = manifest.is_required("JavaScript");
            options.push(
                LanguageOption { language: Language::JavaScript, selected: required, required },
            );
        }
        if manifest.is_required("Python") || manifest.is_optional("Python") {
            let required = manifest.is_required("Python");
            options.push(
                LanguageOption { language: Language::Python, selected: required, required },
            );
        }
        if manifest.is_required("Rust") || manifest.is_optional("Rust") {
            let required = manifest.is_required("Rust");
            options.push(LanguageOption { language: Language::Rust, selected: required, required });
        }
        proof {
            assert(options@ =~= language_option_spec(manifest@, Language::TypeScript)
                + language_option_spec(manifest@, Language::JavaScript) + language_option_spec(
                manifest@,
                Language::Python,
            ) + language_option_spec(manifest@, Language::Rust));
        }
        LanguageSelectScreen { options, cursor: 0 }
    }

    /// Move the cursor to the next row, wrapping; a no-op without rows.
    pub fn next(&mut self)
        requires
            old(self).wf(),
        ensures
            final(self).wf(),
            final(self).options@ == old(self).options@,
            old(self).options@.len() == 0 ==> final(self).cursor == old(self).cursor,
            old(self).options@.len() > 0 ==> final(self).cursor == (old(self).cursor + 1) % (old(
                self,
            ).options@.len() as int),
    {
        if self.options.len() == 0 {
            return;
        }
        self.cursor = (self.cursor + 1) % self.options.len();
    }

    /// Move the cursor to the previous row, wrapping; a no-op without rows.
    pub fn previous(&mut self)
        requires
            old(self).wf(),
        ensures
            final(self).wf(),
            final(self).options@ == old(self).options@,
            old(self).options@.len() == 0 ==> final(self).cursor == old(self).cursor,
            old(self).options@.len() > 0 ==> final(self).cursor == if old(self).cursor == 0 {
                old(self).options@.len() - 1
            } else {
                old(self).cursor - 1
            },
    {
        if self.options.len() == 0 {
            return;
        }
        if self.cursor == 0 {
            self.cursor = self.options.len() - 1;
        } else {
            self.cursor = self.cursor - 1;
        }
    }

    /// Toggle the highlighted row's selection; required rows stay selected.
    pub fn toggle(&mut self)
        requires
            old(self).wf(),
        ensures
            final(self).wf(),
            final(self).cursor == old(self).cursor,
            final(self).options@.len() == old(self).options@.len(),
            forall|j: int|
                0 <= j < old(self).options@.len() && j != old(self).cursor
                    ==> final(self).options@[j] == old(self).options@[j],
            old(self).cursor < old(self).options@.len() ==> final(self).options@[old(
                self,
            ).cursor as int] == (if old(self).options@[old(self).cursor as int].required {
                old(self).options@[old(self).cursor as int]
            } else {
                LanguageOption {
                    selected: !old(self).options@[old(self).cursor as int].selected,
                    ..old(self).options@[old(self).cursor as int]
                }
            }),
    {
        if self.cursor < self.options.len() {
            let current = self.options[self.cursor];
            if !current.required {
                self.options.set(
                    self.cursor,
                    LanguageOption {
                        language: current.language,
                        selected: !current.selected,
                        required: current.required,
                    },
                );
            }
        }
    }

    /// The selected languages, in row order.
    pub fn selected_languages(&self) -> (r: Vec<Language>)
        ensures
            r@ == self.options@.filter(|o: LanguageOption| o.selected).map_values(
                |o: LanguageOption| o.language,
            ),
    {
        let ghost pred = |o: LanguageOption| o.selected;
        let ghost lang_of = |o: LanguageOption| o.language;
        let mut r: Vec<Language> = Vec::new();
        proof {
            lemma_filter_take_zero(self.options@, pred);
            assert(r@ =~= self.options@.take(0).filter(pred).map_values(lang_of));
        }
        let mut i: usize = 0;
        while i < self.options.len()
            invariant
                i <= self.options.len(),
                pred == (|o: LanguageOption| o.selected),
                lang_of == (|o: LanguageOption| o.language),
                r@ == self.options@.take(i as int).filter(pred).map_values(lang_of),
            decreases self.options.len() - i,
        {
            proof {
                lemma_filter_take_step(self.options@, pred, i as int);
            }
            if self.options[i].selected {
                r.push(self.options[i].language);
                proof {
                    assert(r@ =~= self.options@.take(i as int).filter(pred).push(
                        self.options@[i as int],
                    ).map_values(lang_of));
                }
            }
            i += 1;
        }
        proof {
            assert(self.options@.take(self.options@.len() as int) =~= self.options@);
            assert(r@ =~= self.options@.filter(pred).map_values(
                |o: LanguageOption| o.language,
            ));
        }
        r
    }
}

/// The slot a language takes among the always-selected, non-deselectable
/// languages: required ones, when they are not downgraded to "included".
pub open spec fn required_slot(m: crate::manifest::ManifestModel, l: Language) -> Seq<Language> {
    if names_contain_ci(m.requires, crate::runtime::display_name_spec(l))
        && !m.treat_required_as_included {
        seq![l]
    } else {
        Seq::<Language>::empty()
    }
}

/// The slot a language takes among the "included" languages: required ones
/// downgraded to advisory by the manifest's flag.
pub open spec fn included_slot(m: crate::manifest::ManifestModel, l: Language) -> Seq<Language> {
    if names_contain_ci(m.requires, crate::runtime::display_name_spec(l))
        && m.treat_required_as_included {
        seq![l]
    } else {
        Seq::<Language>::empty()
    }
}

/// The slot a language takes among the user-selectable optional languages.
pub open spec fn optional_slot(m: crate::manifest::ManifestModel, l: Language) -> Seq<Language> {
    if !names_contain_ci(m.requires, crate::runtime::display_name_spec(l)) && names_contain_ci(
        m.optional,
        crate::runtime::display_name_spec(l),
    ) {
        seq![l]
    } else {
        Seq::<Language>::empty()
    }
}

/// How a template's languages divide for the selection step.
pub struct LanguagePlan {
    /// Languages the user cannot deselect, checked fatally.
    pub required: Vec<Language>,
    /// Languages always selected but checked advisorily.
    pub included: Vec<Language>,
    /// Languages the user may add.
    pub optional: Vec<Language>,
}

/// Divide a template's languages for the selection step, in the fixed order
/// TypeScript, JavaScript, Python, Rust: every required language is
/// non-deselectable — downgraded to "included" (advisory) when the
/// manifest's flag says so — and the optional ones are user-selectable.
pub fn classify_languages(manifest: &TemplateManifest) -> (r: LanguagePlan)
    ensures
        r.required@ == required_slot(manifest@, Language::TypeScript) + required_slot(
            manifest@,
            Language::JavaScript,
        ) + required_slot(manifest@, Language::Python) + required_slot(manifest@, Language::Rust),
        r.included@ == included_slot(manifest@, Language::TypeScript) + included_slot(
            manifest@,
            Language::JavaScript,
        ) + included_slot(manifest@, Language::Python) + included_slot(manifest@, Language::Rust),
        r.optional@ == optional_slot(manifest@, Language::TypeScript) + optional_slot(
            manifest@,
            Language::JavaScript,
        ) + optional_slot(manifest@, Language::Python) + optional_slot(manifest@, Language::Rust),
{
    let mut required: Vec<Language> = Vec::new();
    let mut included: Vec<Language> = Vec::new();
    let mut optional: Vec<Language> = Vec::new();
    let all = [Language::TypeScript, Language::JavaScript, Language::Python, Language::Rust];
    let mut i: usize = 0;
    while i < 4
        invariant
            i <= 4,
            all@ == seq![
                Language::TypeScript,
                Language::JavaScript,
                Language::Python,
                Language::Rust,
            ],
            required@ == slots_up_to(manifest@, all@, i as int, 0),
            included@ == slots_up_to(manifest@, all@, i as int, 1),
            optional@ == slots_up_to(manifest@, all@, i as int, 2),
        decreases 4 - i,
    {
        let lang = all[i];
        if manifest.is_required(lang.display_name()) {
            if manifest.treat_required_as_included {
                included.push(lang);
            } else {
                required.push(lang);
            }
        } else if manifest.is_optional(lang.display_name()) {
            optional.push(lang);
        }
        proof {
            assert(required@ =~= slots_up_to(manifest@, all@, i + 1, 0));
            assert(included@ =~= slots_up_to(manifest@, all@, i + 1, 1));
            assert(optional@ =~= slots_up_to(manifest@, all@, i + 1, 2));
        }
        i += 1;
    }
    proof {
        reveal_with_fuel(slots_up_to, 6);
        assert(slots_up_to(manifest@, all@, 4, 0) =~= required_slot(
            manifest@,
            Language::TypeScript,
        ) + required_slot(manifest@, Language::JavaScript) + required_slot(
            manifest@,
            Language::Python,
        ) + required_slot(manifest@, Language::Rust));
        assert(slots_up_to(manifest@, all@, 4, 1) =~= included_slot(
            manifest@,
            Language::TypeScript,
        ) + included_slot(manifest@, Language::JavaScript) + included_slot(
            manifest@,
            Language::Python,
        ) + included_slot(manifest@, Language::Rust));
        assert(slots_up_to(manifest@, all@, 4, 2) =~= optional_slot(
            manifest@,
            Language::TypeScript,
        ) + optional_slot(manifest@, Language::JavaScript) + optional_slot(
            manifest@,
            Language::Python,
        ) + optional_slot(manifest@, Language::Rust));
    }
    LanguagePlan { required, included, optional }
}

/// The concatenated slots of the first `i` languages, for one of the three
/// lists (0 required, 1 included, 2 optional).
pub open spec fn slots_up_to(
    m: crate::manifest::ManifestModel,
    langs: Seq<Language>,
    i: int,
    which: int,
) -> Seq<Language>
    decreases i,
{
    if i <= 0 {
        Seq::<Language>::empty()
    } else {
        slots_up_to(m, langs, i - 1, which) + (if which == 0 {
            required_slot(m, langs[i - 1])
        } else if which == 1 {
            included_slot(m, langs[i - 1])
        } else {
            optional_slot(m, langs[i - 1])
        })
    }
}

/// The template selection screen.
pub struct TemplateSelectScreen {
    /// The loaded templates: each name with its manifest.
    pub templates: Vec<(String, TemplateManifest)>,
    /// Index of the highlighted template.
    pub selected: usize,
    /// The load error, if loading failed.
    pub error: Option<String>,
}

impl TemplateSelectScreen {
    /// The highlighted index points at a template, or at zero when none are
    /// loaded.
    pub open spec fn wf(self) -> bool {
        self.selected < self.templates@.len() || (self.selected == 0 && self.templates@.len() == 0)
    }

    /// An empty screen, before templates have loaded.
    pub fn new() -> (r: TemplateSelectScreen)
        ensures
            r.wf(),
            r.templates@.len() == 0,
            r.selected == 0,
            r.error is None,
    {
        TemplateSelectScreen { templates: Vec::new(), selected: 0, error: None }
    }

    /// Show the loaded templates, highlighting the first.
    pub fn set_templates(&mut self, templates: Vec<(String, TemplateManifest)>)
        ensures
            final(self).wf(),
            final(self).templates == templates,
            final(self).selected == 0,
            final(self).error is None,
    {
        self.templates = templates;
        self.selected = 0;
        self.error = None;
    }

    /// Show a load error.
    pub fn set_error(&mut self, error: String)
        requires
            old(self).wf(),
        ensures
            final(self).wf(),
            final(self).templates == old(self).templates,
            final(self).selected == old(self).selected,
            final(self).error == Some(error),
    {
        self.error = Some(error);
    }

    /// Highlight the next template, wrapping; a no-op without templates.
    pub fn next(&mut self)
        requires
            old(self).wf(),
        ensures
            final(self).wf(),
            final(self).templates == old(self).templates,
            final(self).error == old(self).error,
            old(self).templates@.len() == 0 ==> final(self).selected == old(self).selected,
            old(self).templates@.len() > 0 ==> final(self).selected == (old(self).selected + 1) % (
            old(self).templates@.len() as int),
    {
        if self.templates.len() == 0 {
            return;
        }
        self.selected = (self.selected + 1) % self.templates.len();
    }

    /// Highlight the previous template, wrapping; a no-op without templates.
    pub fn previous(&mut self)
        requires
            old(self).wf(),
        ensures
            final(self).wf(),
            final(self).templates == old(self).templates,
            final(self).error == old(self).error,
            old(self).templates@.len() == 0 ==> final(self).selected == old(self).selected,
            old(self).templates@.len() > 0 ==> final(self).selected == if old(self).selected == 0 {
                old(self).templates@.len() - 1
            } else {
                old(self).selected - 1
            },
    {
        if self.templates.len() == 0 {
            return;
        }
        if self.selected == 0 {
            self.selected = self.templates.len() - 1;
        } else {
            self.selected = self.selected - 1;
        }
    }

    /// The highlighted template, when one is loaded.
    pub fn selected_template(&self) -> (r: Option<&(String, TemplateManifest)>)
        requires
            self.wf(),
        ensures
            match r {
                Some(t) => self.templates@.len() > 0 && t == &self.templates@[self.selected as int],
                None => self.templates@.len() == 0,
            },
    {
        if self.selected < self.templates.len() {
            Some(&self.templates[self.selected])
        } else {
            None
        }
    }
}

/// The follow-up steps shown on the summary screen: change into the
/// directory; for the JavaScript family install dependencies and later
/// build; for Python set up and enter a virtual environment; then start the
/// runtime.
pub open spec fn summary_next_steps_spec(dir: Seq<char>, langs: Seq<Language>) -> Seq<Seq<char>> {
    let has_js_ts = langs.contains(Language::TypeScript) || langs.contains(Language::JavaScript);
    let has_python = langs.contains(Language::Python);
    seq!["cd "@ + dir] + (if has_js_ts {
        seq!["npm install"@]
    } else {
        Seq::<Seq<char>>::empty()
    }) + (if has_python {
        seq!["python3 -m venv .venv"@, "source .venv/bin/activate"@, "pip install -r requirements"@]
    } else {
        Seq::<Seq<char>>::empty()
    }) + (if has_js_ts {
        seq!["npm run build"@]
    } else {
        Seq::<Seq<char>>::empty()
    }) + seq!["iii start"@]
}

/// The summary screen: what was created, where, and how it went.
pub struct SummaryScreen {
    /// Name of the created template.
    pub template_name: String,
    /// The project directory, as displayed text.
    pub project_dir: String,
    /// The selected languages.
    pub selected_languages: Vec<Language>,
    /// The files actually copied.
    pub copied_files: Vec<String>,
    /// The version compatibility warning, if one was raised.
    pub version_warning: Option<String>,
    /// Whether creation completed.
    pub is_complete: bool,
    /// The failure message, if creation failed.
    pub error: Option<String>,
}

impl SummaryScreen {
    /// A fresh summary for a creation that is about to run.
    pub fn new(template_name: String, project_dir: String, selected_languages: Vec<Language>) -> (r:
        SummaryScreen)
        ensures
            r.template_name == template_name,
            r.project_dir == project_dir,
            r.selected_languages == selected_languages,
            r.copied_files@.len() == 0,
            r.version_warning is None,
            !r.is_complete,
            r.error is None,
    {
        SummaryScreen {
            template_name,
            project_dir,
            selected_languages,
            copied_files: Vec::new(),
            version_warning: None,
            is_complete: false,
            error: None,
        }
    }

    /// Record a completed creation and the files it copied.
    pub fn set_complete(&mut self, copied_files: Vec<String>)
        ensures
            final(self).copied_files == copied_files,
            final(self).is_complete,
            final(self).template_name == old(self).template_name,
            final(self).project_dir == old(self).project_dir,
            final(self).selected_languages == old(self).selected_languages,
            final(self).version_warning == old(self).version_warning,
            final(self).error == old(self).error,
    {
        self.copied_files = copied_files;
        self.is_complete = true;
    }

    /// Record a failure.
    pub fn set_error(&mut self, error: String)
        ensures
            final(self).error == Some(error),
            final(self).template_name == old(self).template_name,
            final(self).project_dir == old(self).project_dir,
            final(self).selected_languages == old(self).selected_languages,
            final(self).copied_files == old(self).copied_files,
            final(self).version_warning == old(self).version_warning,
            final(self).is_complete == old(self).is_complete,
    {
        self.error = Some(error);
    }

    /// Record a version compatibility warning.
    pub fn set_version_warning(&mut self, warning: String)
        ensures
            final(self).version_warning == Some(warning),
            final(self).template_name == old(self).template_name,
            final(self).project_dir == old(self).project_dir,
            final(self).selected_languages == old(self).selected_languages,
            final(self).copied_files == old(self).copied_files,
            final(self).is_complete == old(self).is_complete,
            final(self).error == old(self).error,
    {
        self.version_warning = Some(warning);
    }

    /// The follow-up steps for the selected languages.
    pub fn get_next_steps(&self) -> (r: Vec<String>)
        ensures
            patterns_view(r@) == summary_next_steps_spec(
                self.project_dir@,
                self.selected_languages@,
            ),
    {
        let has_js_ts = contains_language(&self.selected_languages, Language::TypeScript)
            || contains_language(&self.selected_languages, Language::JavaScript);
        let has_python = contains_language(&self.selected_languages, Language::Python);

        let mut steps: Vec<String> = Vec::new();
        steps.push("cd ".to_owned().concat(self.project_dir.as_str()));
        if has_js_ts {
            steps.push("npm install".to_owned());
        }
        if has_python {
            steps.push("python3 -m venv .venv".to_owned());
            steps.push("source .venv/bin/activate".to_owned());
            steps.push("pip install -r requirements".to_owned());
        }
        if has_js_ts {
            steps.push("npm run build".to_owned());
        }
        steps.push("iii start".to_owned());
        proof {
            assert(patterns_view(steps@) =~= summary_next_steps_spec(
                self.project_dir@,
                self.selected_languages@,
            ));
        }
        steps
    }
}

} // verus!
