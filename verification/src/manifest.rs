//! Manifest data model: language-file rule tables, shared files, and the
//! root and per-template manifests, with the filename pattern rules that
//! associate files with language buckets.

use vstd::prelude::*;
use vstd::string::*;

use crate::text::{
    after_last_slash, base_name, ends_with_spec, starts_with_spec, str_ci_equal, str_eq,
    str_eq_ignore_ascii_case, str_ends_with, str_starts_with,
};

verus! {

/// Which language bucket a file is associated with.
#[derive(Debug, Clone, Copy, PartialEq, Eq, Structural)]
pub enum FileLanguage {
    /// Always included.
    Common,
    Python,
    TypeScript,
    JavaScript,
    /// Either JavaScript or TypeScript.
    Node,
    Rust,
}

/// File patterns associated with each language bucket.
pub struct LanguageFiles {
    /// Files always included regardless of language selection.
    pub common: Vec<String>,
    /// Files that require Python to be selected.
    pub python: Vec<String>,
    /// Files that require TypeScript to be selected.
    pub typescript: Vec<String>,
    /// Files that require JavaScript to be selected.
    pub javascript: Vec<String>,
    /// Files that require either JavaScript or TypeScript.
    pub node: Vec<String>,
    /// Files that require Rust to be selected.
    pub rust: Vec<String>,
}

/// Mathematical model of a rule table: one pattern list per bucket.
#[verifier::ext_equal]
pub struct LfModel {
    pub common: Seq<Seq<char>>,
    pub python: Seq<Seq<char>>,
    pub typescript: Seq<Seq<char>>,
    pub javascript: Seq<Seq<char>>,
    pub node: Seq<Seq<char>>,
    pub rust: Seq<Seq<char>>,
}

/// The character sequences of a pattern list.
pub open spec fn patterns_view(ps: Seq<String>) -> Seq<Seq<char>> {
    ps.map_values(|s: String| s@)
}

impl View for LanguageFiles {
    type V = LfModel;

    open spec fn view(&self) -> LfModel {
        LfModel {
            common: patterns_view(self.common@),
            python: patterns_view(self.python@),
            typescript: patterns_view(self.typescript@),
            javascript: patterns_view(self.javascript@),
            node: patterns_view(self.node@),
            rust: patterns_view(self.rust@),
        }
    }
}

/// A single glob-lite pattern matches a filename: a pattern starting with `*`
/// is a suffix match, one ending with `*` is a prefix match, anything else is
/// an exact match.
pub open spec fn pattern_matches(f: Seq<char>, p: Seq<char>) -> bool {
    if p.len() > 0 && p.first() == '*' {
        ends_with_spec(f, p.skip(1))
    } else if p.len() > 0 && p.last() == '*' {
        starts_with_spec(f, p.take(p.len() - 1))
    } else {
        f == p
    }
}

/// Some pattern in the list matches the filename.
pub open spec fn matches_any_spec(f: Seq<char>, ps: Seq<Seq<char>>) -> bool {
    exists|i: int| 0 <= i < ps.len() && pattern_matches(f, ps[i])
}

impl LfModel {
    /// The bucket a file falls in: the first bucket, in the fixed order
    /// common, python, typescript, javascript, node, rust, with a pattern
    /// matching the file's base name; `None` when no bucket matches.
    pub open spec fn bucket_for(self, path: Seq<char>) -> Option<FileLanguage> {
        let f = after_last_slash(path);
        if matches_any_spec(f, self.common) {
            Some(FileLanguage::Common)
        } else if matches_any_spec(f, self.python) {
            Some(FileLanguage::Python)
        } else if matches_any_spec(f, self.typescript) {
            Some(FileLanguage::TypeScript)
        } else if matches_any_spec(f, self.javascript) {
            Some(FileLanguage::JavaScript)
        } else if matches_any_spec(f, self.node) {
            Some(FileLanguage::Node)
        } else if matches_any_spec(f, self.rust) {
            Some(FileLanguage::Rust)
        } else {
            None
        }
    }

    /// Bucket-wise concatenation of two rule tables.
    pub open spec fn merged_with(self, other: LfModel) -> LfModel {
        LfModel {
            common: self.common + other.common,
            python: self.python + other.python,
            typescript: self.typescript + other.typescript,
            javascript: self.javascript + other.javascript,
            node: self.node + other.node,
            rust: self.rust + other.rust,
        }
    }
}

/// Clone every pattern of `src` onto the end of `dst`.
fn extend_patterns(dst: &mut Vec<String>, src: &Vec<String>)
    ensures
        final(dst)@ == old(dst)@ + src@,
{
    let mut i: usize = 0;
    while i < src.len()
        invariant
            i <= src.len(),
            dst@ == old(dst)@ + src@.take(i as int),
        decreases src.len() - i,
    {
        dst.push(src[i].clone());
        proof {
            assert(old(dst)@ + src@.take(i + 1) =~= (old(dst)@ + src@.take(i as int)).push(
                src@[i as int],
            ));
        }
        i += 1;
    }
    proof {
        assert(src@.take(src@.len() as int) =~= src@);
    }
}

impl LanguageFiles {
    /// An empty rule table.
    pub fn new() -> (r: LanguageFiles)
        ensures
            r@ == (LfModel {
                common: Seq::<Seq<char>>::empty(),
                python: Seq::<Seq<char>>::empty(),
                typescript: Seq::<Seq<char>>::empty(),
                javascript: Seq::<Seq<char>>::empty(),
                node: Seq::<Seq<char>>::empty(),
                rust: Seq::<Seq<char>>::empty(),
            }),
    {
        let r = LanguageFiles {
            common: Vec::new(),
            python: Vec::new(),
            typescript: Vec::new(),
            javascript: Vec::new(),
            node: Vec::new(),
            rust: Vec::new(),
        };
        proof {
            assert(r@ =~= (LfModel {
                common: Seq::<Seq<char>>::empty(),
                python: Seq::<Seq<char>>::empty(),
                typescript: Seq::<Seq<char>>::empty(),
                javascript: Seq::<Seq<char>>::empty(),
                node: Seq::<Seq<char>>::empty(),
                rust: Seq::<Seq<char>>::empty(),
            }));
        }
        r
    }

    /// Whether every bucket is empty.
    pub open spec fn is_empty_spec(self) -> bool {
        self@ == (LfModel {
            common: Seq::<Seq<char>>::empty(),
            python: Seq::<Seq<char>>::empty(),
            typescript: Seq::<Seq<char>>::empty(),
            javascript: Seq::<Seq<char>>::empty(),
            node: Seq::<Seq<char>>::empty(),
            rust: Seq::<Seq<char>>::empty(),
        })
    }

    /// A copy of this rule table.
    pub fn duplicate(&self) -> (r: LanguageFiles)
        ensures
            r@ == self@,
    {
        let mut r = LanguageFiles::new();
        r.merge(self);
        proof {
            assert(r@ =~= self@);
        }
        r
    }

    /// Merge another rule table into this one: every bucket's pattern list of
    /// `other` is appended to the corresponding bucket of `self`.
    pub fn merge(&mut self, other: &LanguageFiles)
        ensures
            final(self)@ == old(self)@.merged_with(other@),
    {
        extend_patterns(&mut self.common, &other.common);
        extend_patterns(&mut self.python, &other.python);
        extend_patterns(&mut self.typescript, &other.typescript);
        extend_patterns(&mut self.javascript, &other.javascript);
        extend_patterns(&mut self.node, &other.node);
        extend_patterns(&mut self.rust, &other.rust);
        proof {
            lemma_patterns_view_append(old(self).common@, other.common@);
            lemma_patterns_view_append(old(self).python@, other.python@);
            lemma_patterns_view_append(old(self).typescript@, other.typescript@);
            lemma_patterns_view_append(old(self).javascript@, other.javascript@);
            lemma_patterns_view_append(old(self).node@, other.node@);
            lemma_patterns_view_append(old(self).rust@, other.rust@);
            assert(final(self)@ =~= old(self)@.merged_with(other@));
        }
    }

    /// Whether the filename matches any pattern in the list.
    pub fn matches_any(filename: &str, patterns: &Vec<String>) -> (r: bool)
        ensures
            r == matches_any_spec(filename@, patterns_view(patterns@)),
    {
        let ghost ps = patterns_view(patterns@);
        let mut i: usize = 0;
        while i < patterns.len()
            invariant
                i <= patterns.len(),
                ps == patterns_view(patterns@),
                ps.len() == patterns@.len(),
                forall|j: int| 0 <= j < i ==> !pattern_matches(filename@, ps[j]),
            decreases patterns.len() - i,
        {
            if pattern_match(filename, patterns[i].as_str()) {
                proof {
                    assert(ps[i as int] == patterns@[i as int]@);
                }
                return true;
            }
            proof {
                assert(ps[i as int] == patterns@[i as int]@);
            }
            i += 1;
        }
        false
    }

    /// The bucket a file falls in, testing buckets in the fixed precedence
    /// order common, python, typescript, javascript, node, rust against the
    /// file's base name. `None` when no pattern matches: such a file is
    /// excluded by default.
    pub fn get_language_for_file(&self, file_path: &str) -> (r: Option<FileLanguage>)
        ensures
            r == self@.bucket_for(file_path@),
    {
        let filename = base_name(file_path);
        if Self::matches_any(filename, &self.common) {
            Some(FileLanguage::Common)
        } else if Self::matches_any(filename, &self.python) {
            Some(FileLanguage::Python)
        } else if Self::matches_any(filename, &self.typescript) {
            Some(FileLanguage::TypeScript)
        } else if Self::matches_any(filename, &self.javascript) {
            Some(FileLanguage::JavaScript)
        } else if Self::matches_any(filename, &self.node) {
            Some(FileLanguage::Node)
        } else if Self::matches_any(filename, &self.rust) {
            Some(FileLanguage::Rust)
        } else {
            None
        }
    }
}

/// One glob-lite pattern against one filename.
fn pattern_match(filename: &str, pattern: &str) -> (r: bool)
    ensures
        r == pattern_matches(filename@, pattern@),
{
    let plen = pattern.unicode_len();
    if plen > 0 && pattern.get_char(0) == '*' {
        let suffix = pattern.substring_char(1, plen);
        let r = str_ends_with(filename, suffix);
        proof {
            assert(suffix@ =~= pattern@.skip(1));
        }
        r
    } else if plen > 0 && pattern.get_char(plen - 1) == '*' {
        let prefix = pattern.substring_char(0, plen - 1);
        let r = str_starts_with(filename, prefix);
        proof {
            assert(prefix@ =~= pattern@.take(pattern@.len() - 1));
        }
        r
    } else {
        str_eq(filename, pattern)
    }
}

/// Appending pattern lists appends their views.
pub proof fn lemma_patterns_view_append(a: Seq<String>, b: Seq<String>)
    ensures
        patterns_view(a + b) == patterns_view(a) + patterns_view(b),
{
    assert(patterns_view(a + b) =~= patterns_view(a) + patterns_view(b));
}

/// A filename matches a concatenated pattern list exactly when it matches
/// either part: membership, not pattern order, decides matching.
pub proof fn lemma_matches_any_append(f: Seq<char>, ps: Seq<Seq<char>>, qs: Seq<Seq<char>>)
    ensures
        matches_any_spec(f, ps + qs) <==> (matches_any_spec(f, ps) || matches_any_spec(f, qs)),
{
    if matches_any_spec(f, ps) {
        let i = choose|i: int| 0 <= i < ps.len() && pattern_matches(f, ps[i]);
        assert((ps + qs)[i] == ps[i]);
    }
    if matches_any_spec(f, qs) {
        let i = choose|i: int| 0 <= i < qs.len() && pattern_matches(f, qs[i]);
        assert((ps + qs)[ps.len() + i] == qs[i]);
    }
    if matches_any_spec(f, ps + qs) {
        let i = choose|i: int| 0 <= i < (ps + qs).len() && pattern_matches(f, (ps + qs)[i]);
        if i < ps.len() {
            assert(pattern_matches(f, ps[i]));
        } else {
            assert(pattern_matches(f, qs[i - ps.len()]));
        }
    }
}

/// A list holding one pattern matches exactly the filenames that pattern
/// matches.
pub proof fn lemma_matches_any_singleton(f: Seq<char>, p: Seq<char>)
    ensures
        matches_any_spec(f, seq![p]) <==> pattern_matches(f, p),
{
    if pattern_matches(f, p) {
        assert(seq![p][0] == p);
    }
}

/// A pattern beginning with `*` matches exactly the filenames that end with
/// the rest of the pattern.
pub proof fn lemma_star_prefix_is_suffix_match(f: Seq<char>, p: Seq<char>)
    requires
        p.len() > 0,
        p.first() == '*',
    ensures
        pattern_matches(f, p) <==> ends_with_spec(f, p.skip(1)),
{
}

/// A pattern ending with `*` (and not beginning with one) matches exactly the
/// filenames that start with the rest of the pattern.
pub proof fn lemma_star_suffix_is_prefix_match(f: Seq<char>, p: Seq<char>)
    requires
        p.len() > 0,
        p.first() != '*',
        p.last() == '*',
    ensures
        pattern_matches(f, p) <==> starts_with_spec(f, p.take(p.len() - 1)),
{
}

/// A pattern with no `*` at either end matches only the identical filename.
pub proof fn lemma_plain_pattern_is_exact_match(f: Seq<char>, p: Seq<char>)
    requires
        p.len() == 0 || (p.first() != '*' && p.last() != '*'),
    ensures
        pattern_matches(f, p) <==> f == p,
{
}

/// Bucket precedence: a filename matching both the common and the python
/// bucket is assigned to common, the first bucket in the checking order.
pub proof fn lemma_common_precedes_python(lf: LfModel, path: Seq<char>)
    requires
        matches_any_spec(after_last_slash(path), lf.common),
        matches_any_spec(after_last_slash(path), lf.python),
    ensures
        lf.bucket_for(path) == Some(FileLanguage::Common),
{
}

/// Merging rule tables in either order assigns every file the same bucket:
/// the merge order changes only pattern order inside a bucket, which is
/// irrelevant to matching.
pub proof fn lemma_merge_order_irrelevant(a: LfModel, b: LfModel, path: Seq<char>)
    ensures
        a.merged_with(b).bucket_for(path) == b.merged_with(a).bucket_for(path),
{
    let f = after_last_slash(path);
    lemma_matches_any_append(f, a.common, b.common);
    lemma_matches_any_append(f, b.common, a.common);
    lemma_matches_any_append(f, a.python, b.python);
    lemma_matches_any_append(f, b.python, a.python);
    lemma_matches_any_append(f, a.typescript, b.typescript);
    lemma_matches_any_append(f, b.typescript, a.typescript);
    lemma_matches_any_append(f, a.javascript, b.javascript);
    lemma_matches_any_append(f, b.javascript, a.javascript);
    lemma_matches_any_append(f, a.node, b.node);
    lemma_matches_any_append(f, b.node, a.node);
    lemma_matches_any_append(f, a.rust, b.rust);
    lemma_matches_any_append(f, b.rust, a.rust);
}

/// Merging rule tables is associative: either grouping yields the same table.
pub proof fn lemma_merge_associative(a: LfModel, b: LfModel, c: LfModel)
    ensures
        a.merged_with(b).merged_with(c) == a.merged_with(b.merged_with(c)),
{
    assert(a.merged_with(b).merged_with(c) =~= a.merged_with(b.merged_with(c)));
}

/// A shared file from the root templates directory that is bundled into
/// every template, optionally renamed on the way in.
pub struct SharedFile {
    /// Source path relative to the templates directory.
    pub source: String,
    /// Destination path in each template; defaults to `source` when absent.
    pub dest: Option<String>,
}

/// Mathematical model of a shared-file entry.
#[verifier::ext_equal]
pub struct SharedFileModel {
    pub source: Seq<char>,
    pub dest: Option<Seq<char>>,
}

impl View for SharedFile {
    type V = SharedFileModel;

    open spec fn view(&self) -> SharedFileModel {
        SharedFileModel {
            source: self.source@,
            dest: match self.dest {
                Some(d) => Some(d@),
                None => None,
            },
        }
    }
}

impl SharedFileModel {
    /// The effective destination: `dest` when set, else `source`.
    pub open spec fn destination(self) -> Seq<char> {
        match self.dest {
            Some(d) => d,
            None => self.source,
        }
    }
}

impl SharedFile {
    /// The destination path: `dest` when set, else the source path.
    pub fn destination(&self) -> (r: &str)
        ensures
            r@ == self@.destination(),
    {
        match &self.dest {
            Some(d) => d.as_str(),
            None => self.source.as_str(),
        }
    }

    /// A copy of this shared-file entry.
    pub fn duplicate(&self) -> (r: SharedFile)
        ensures
            r@ == self@,
    {
        let r = SharedFile {
            source: self.source.clone(),
            dest: match &self.dest {
                Some(d) => Some(d.clone()),
                None => None,
            },
        };
        proof {
            assert(r@ =~= self@);
        }
        r
    }
}

impl Default for LanguageFiles {
    /// The empty rule table.
    fn default() -> (r: LanguageFiles)
        ensures
            r.is_empty_spec(),
    {
        LanguageFiles::new()
    }
}

/// Clone every string of a list.
pub fn clone_strings(src: &Vec<String>) -> (r: Vec<String>)
    ensures
        r@ == src@,
{
    let mut r: Vec<String> = Vec::new();
    extend_patterns(&mut r, src);
    proof {
        assert(r@ =~= src@);
    }
    r
}

/// The root manifest: the template catalog with global language-file rules
/// and the shared files bundled into every template.
pub struct RootManifest {
    /// Names of the available template directories, in selection order.
    pub templates: Vec<String>,
    /// Global language-file rules applied to every template.
    pub language_files: LanguageFiles,
    /// Files outside any template folder bundled into every template.
    pub shared_files: Vec<SharedFile>,
}

/// Mathematical model of a root manifest.
#[verifier::ext_equal]
pub struct RootManifestModel {
    pub templates: Seq<Seq<char>>,
    pub language_files: LfModel,
    pub shared_files: Seq<SharedFileModel>,
}

impl View for RootManifest {
    type V = RootManifestModel;

    open spec fn view(&self) -> RootManifestModel {
        RootManifestModel {
            templates: patterns_view(self.templates@),
            language_files: self.language_files@,
            shared_files: self.shared_files@.map_values(|s: SharedFile| s@),
        }
    }
}

/// A per-template manifest: identity, language requirements, and the
/// explicit list of files the copy engine may ship.
pub struct TemplateManifest {
    /// Display name of the template.
    pub name: String,
    /// Description of what the template provides.
    pub description: String,
    /// Semantic version for compatibility checking against the tool.
    pub version: String,
    /// Languages that must be included.
    pub requires: Vec<String>,
    /// Languages a user may add.
    pub optional: Vec<String>,
    /// When true, required languages become "included": always selected and
    /// checked advisorily rather than fatally.
    pub treat_required_as_included: bool,
    /// The authoritative ordered list of copyable relative paths.
    pub files: Vec<String>,
    /// Per-template rule overrides, merged on top of the root's rules.
    pub language_files: LanguageFiles,
}

/// Mathematical model of a per-template manifest.
#[verifier::ext_equal]
pub struct ManifestModel {
    pub name: Seq<char>,
    pub description: Seq<char>,
    pub version: Seq<char>,
    pub requires: Seq<Seq<char>>,
    pub optional: Seq<Seq<char>>,
    pub treat_required_as_included: bool,
    pub files: Seq<Seq<char>>,
    pub language_files: LfModel,
}

impl View for TemplateManifest {
    type V = ManifestModel;

    open spec fn view(&self) -> ManifestModel {
        ManifestModel {
            name: self.name@,
            description: self.description@,
            version: self.version@,
            requires: patterns_view(self.requires@),
            optional: patterns_view(self.optional@),
            treat_required_as_included: self.treat_required_as_included,
            files: patterns_view(self.files@),
            language_files: self.language_files@,
        }
    }
}

/// Some name in the list equals `language` up to ASCII case.
pub open spec fn names_contain_ci(names: Seq<Seq<char>>, language: Seq<char>) -> bool {
    exists|i: int| 0 <= i < names.len() && str_ci_equal(names[i], language)
}

/// Whether some string in the list equals `language` ignoring ASCII case.
fn contains_name_ci(names: &Vec<String>, language: &str) -> (r: bool)
    ensures
        r == names_contain_ci(patterns_view(names@), language@),
{
    let ghost ns = patterns_view(names@);
    let mut i: usize = 0;
    while i < names.len()
        invariant
            i <= names.len(),
            ns == patterns_view(names@),
            ns.len() == names@.len(),
            forall|j: int| 0 <= j < i ==> !str_ci_equal(ns[j], language@),
        decreases names.len() - i,
    {
        if str_eq_ignore_ascii_case(names[i].as_str(), language) {
            proof {
                assert(ns[i as int] == names@[i as int]@);
            }
            return true;
        }
        proof {
            assert(ns[i as int] == names@[i as int]@);
        }
        i += 1;
    }
    false
}

impl TemplateManifest {
    /// Whether the language is required by this template, compared
    /// case-insensitively.
    pub fn is_required(&self, language: &str) -> (r: bool)
        ensures
            r == names_contain_ci(self@.requires, language@),
    {
        contains_name_ci(&self.requires, language)
    }

    /// Whether the language is optional for this template, compared
    /// case-insensitively.
    pub fn is_optional(&self, language: &str) -> (r: bool)
        ensures
            r == names_contain_ci(self@.optional, language@),
    {
        contains_name_ci(&self.optional, language)
    }

    /// The names of the languages treated as "included": the required
    /// languages when `treat_required_as_included` is set, else none.
    pub fn included_language_names(&self) -> (r: Vec<String>)
        ensures
            patterns_view(r@) == if self.treat_required_as_included {
                self@.requires
            } else {
                Seq::<Seq<char>>::empty()
            },
    {
        if self.treat_required_as_included {
            clone_strings(&self.requires)
        } else {
            let r: Vec<String> = Vec::new();
            proof {
                assert(patterns_view(r@) =~= Seq::<Seq<char>>::empty());
            }
            r
        }
    }

    /// All languages this template knows: the required ones, then the
    /// optional ones.
    pub fn all_languages(&self) -> (r: Vec<String>)
        ensures
            patterns_view(r@) == self@.requires + self@.optional,
    {
        let mut r = clone_strings(&self.requires);
        extend_patterns(&mut r, &self.optional);
        proof {
            lemma_patterns_view_append(self.requires@, self.optional@);
        }
        r
    }

    /// A copy of this manifest.
    pub fn duplicate(&self) -> (r: TemplateManifest)
        ensures
            r@ == self@,
    {
        let r = TemplateManifest {
            name: self.name.clone(),
            description: self.description.clone(),
            version: self.version.clone(),
            requires: clone_strings(&self.requires),
            optional: clone_strings(&self.optional),
            treat_required_as_included: self.treat_required_as_included,
            files: clone_strings(&self.files),
            language_files: self.language_files.duplicate(),
        };
        proof {
            assert(r@ =~= self@);
        }
        r
    }
}

} // verus!
