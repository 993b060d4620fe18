//! Schema mapping between YAML documents and the manifest types: which
//! fields are required, which default, and the alias accepted for the
//! included-languages flag.

use vstd::prelude::*;
use vstd::string::*;

use crate::errors::TemplateError;
use crate::manifest::{
    patterns_view, LanguageFiles, LfModel, ManifestModel, RootManifest, RootManifestModel,
    SharedFile, SharedFileModel, TemplateManifest,
};
use crate::yaml::{
    map_lookup, map_lookup_spec, parse_yaml, string_list, string_list_spec, yaml_of, Yaml,
};

verus! {

broadcast use vstd::string::group_string_axioms;

/// The rule table with every bucket empty.
pub open spec fn empty_lf_model() -> LfModel {
    LfModel {
        common: Seq::empty(),
        python: Seq::empty(),
        typescript: Seq::empty(),
        javascript: Seq::empty(),
        node: Seq::empty(),
        rust: Seq::empty(),
    }
}

/// An optional string-list field: the named key's string list, or the empty
/// list when the key is absent.
pub open spec fn opt_string_list_spec(es: Seq<(Yaml, Yaml)>, key: Seq<char>) -> Option<
    Seq<Seq<char>>,
> {
    match map_lookup_spec(es, key) {
        Some(v) => match v {
            Yaml::Sequence(xs) => string_list_spec(xs@),
            _ => None,
        },
        None => Some(Seq::empty()),
    }
}

/// A required string-list field.
pub open spec fn req_string_list_spec(es: Seq<(Yaml, Yaml)>, key: Seq<char>) -> Option<
    Seq<Seq<char>>,
> {
    match map_lookup_spec(es, key) {
        Some(v) => match v {
            Yaml::Sequence(xs) => string_list_spec(xs@),
            _ => None,
        },
        None => None,
    }
}

/// A required string field.
pub open spec fn req_string_spec(es: Seq<(Yaml, Yaml)>, key: Seq<char>) -> Option<Seq<char>> {
    match map_lookup_spec(es, key) {
        Some(v) => match v {
            Yaml::Str(s) => Some(s@),
            _ => None,
        },
        None => None,
    }
}

/// The rule table a YAML node denotes: a mapping whose six bucket keys each
/// hold a string list, every bucket defaulting to empty; unknown keys are
/// ignored.
pub open spec fn lf_model_of_yaml(y: Yaml) -> Option<LfModel> {
    match y {
        Yaml::Mapping(es) => {
            let common = opt_string_list_spec(es@, "common"@);
            let python = opt_string_list_spec(es@, "python"@);
            let typescript = opt_string_list_spec(es@, "typescript"@);
            let javascript = opt_string_list_spec(es@, "javascript"@);
            let node = opt_string_list_spec(es@, "node"@);
            let rust = opt_string_list_spec(es@, "rust"@);
            if common is Some && python is Some && typescript is Some && javascript is Some
                && node is Some && rust is Some {
                Some(
                    LfModel {
                        common: common.unwrap(),
                        python: python.unwrap(),
                        typescript: typescript.unwrap(),
                        javascript: javascript.unwrap(),
                        node: node.unwrap(),
                        rust: rust.unwrap(),
                    },
                )
            } else {
                None
            }
        },
        _ => None,
    }
}

/// The shared-file entry a YAML node denotes: a mapping with a required
/// `source` string and an optional `dest` string.
pub open spec fn shared_file_of_yaml(y: Yaml) -> Option<SharedFileModel> {
    match y {
        Yaml::Mapping(es) => match map_lookup_spec(es@, "source"@) {
            Some(v) => match v {
                Yaml::Str(s) => match map_lookup_spec(es@, "dest"@) {
                    None => Some(SharedFileModel { source: s@, dest: None }),
                    Some(d) => match d {
                        Yaml::Null => Some(SharedFileModel { source: s@, dest: None }),
                        Yaml::Str(ds) => Some(SharedFileModel { source: s@, dest: Some(ds@) }),
                        _ => None,
                    },
                },
                _ => None,
            },
            None => None,
        },
        _ => None,
    }
}

/// The shared-file entries of a sequence node, when every element is a
/// well-formed shared-file mapping.
pub open spec fn shared_list_spec(xs: Seq<Yaml>) -> Option<Seq<SharedFileModel>>
    decreases xs.len(),
{
    if xs.len() == 0 {
        Some(Seq::empty())
    } else {
        match shared_list_spec(xs.drop_last()) {
            Some(rest) => match shared_file_of_yaml(xs.last()) {
                Some(sf) => Some(rest.push(sf)),
                None => None,
            },
            None => None,
        }
    }
}

/// The root manifest a YAML document denotes: a required `templates` string
/// list, an optional rule table, and an optional shared-file list.
pub open spec fn root_manifest_of_yaml(y: Yaml) -> Option<RootManifestModel> {
    match y {
        Yaml::Mapping(es) => {
            let templates = req_string_list_spec(es@, "templates"@);
            let lf = match map_lookup_spec(es@, "language_files"@) {
                None => Some(empty_lf_model()),
                Some(v) => lf_model_of_yaml(v),
            };
            let shared = match map_lookup_spec(es@, "shared_files"@) {
                None => Some(Seq::<SharedFileModel>::empty()),
                Some(v) => match v {
                    Yaml::Sequence(xs) => shared_list_spec(xs@),
                    _ => None,
                },
            };
            if templates is Some && lf is Some && shared is Some {
                Some(
                    RootManifestModel {
                        templates: templates.unwrap(),
                        language_files: lf.unwrap(),
                        shared_files: shared.unwrap(),
                    },
                )
            } else {
                None
            }
        },
        _ => None,
    }
}

/// The included-languages flag: the `treat_required_as_included` key, or its
/// alias `treat_required_as_suggested`, defaulting to false.
pub open spec fn included_flag_spec(es: Seq<(Yaml, Yaml)>) -> Option<bool> {
    match map_lookup_spec(es, "treat_required_as_included"@) {
        Some(v) => match v {
            Yaml::Bool(b) => Some(b),
            _ => None,
        },
        None => match map_lookup_spec(es, "treat_required_as_suggested"@) {
            Some(v) => match v {
                Yaml::Bool(b) => Some(b),
                _ => None,
            },
            None => Some(false),
        },
    }
}

/// The rule-table field of a manifest: absent means empty.
pub open spec fn lf_field_spec(es: Seq<(Yaml, Yaml)>) -> Option<LfModel> {
    match map_lookup_spec(es, "language_files"@) {
        None => Some(empty_lf_model()),
        Some(v) => lf_model_of_yaml(v),
    }
}

/// The per-template manifest a YAML document denotes: required `name`,
/// `description`, `version` strings and `files` string list; optional
/// `requires` and `optional` lists, included-languages flag, and rule table.
pub open spec fn template_manifest_of_yaml(y: Yaml) -> Option<ManifestModel> {
    match y {
        Yaml::Mapping(es) => {
            let name = req_string_spec(es@, "name"@);
            let description = req_string_spec(es@, "description"@);
            let version = req_string_spec(es@, "version"@);
            let requires_list = opt_string_list_spec(es@, "requires"@);
            let optional = opt_string_list_spec(es@, "optional"@);
            let flag = included_flag_spec(es@);
            let files = req_string_list_spec(es@, "files"@);
            let lf = lf_field_spec(es@);
            if name is Some && description is Some && version is Some && requires_list is Some
                && optional is Some && flag is Some && files is Some && lf is Some {
                Some(
                    ManifestModel {
                        name: name.unwrap(),
                        description: description.unwrap(),
                        version: version.unwrap(),
                        requires: requires_list.unwrap(),
                        optional: optional.unwrap(),
                        treat_required_as_included: flag.unwrap(),
                        files: files.unwrap(),
                        language_files: lf.unwrap(),
                    },
                )
            } else {
                None
            }
        },
        _ => None,
    }
}

/// An optional string-list field of a mapping.
fn opt_string_list(es: &Vec<(Yaml, Yaml)>, key: &str) -> (r: Option<Vec<String>>)
    ensures
        match r {
            Some(v) => opt_string_list_spec(es@, key@) == Some(patterns_view(v@)),
            None => opt_string_list_spec(es@, key@) is None,
        },
{
    match map_lookup(es, key) {
        Some(v) => match v {
            Yaml::Sequence(xs) => string_list(xs),
            _ => None,
        },
        None => {
            let r: Vec<String> = Vec::new();
            proof {
                assert(patterns_view(r@) =~= Seq::<Seq<char>>::empty());
            }
            Some(r)
        },
    }
}

/// A required string-list field of a mapping.
fn req_string_list(es: &Vec<(Yaml, Yaml)>, key: &str) -> (r: Option<Vec<String>>)
    ensures
        match r {
            Some(v) => req_string_list_spec(es@, key@) == Some(patterns_view(v@)),
            None => req_string_list_spec(es@, key@) is None,
        },
{
    match map_lookup(es, key) {
        Some(v) => match v {
            Yaml::Sequence(xs) => string_list(xs),
            _ => None,
        },
        None => None,
    }
}

/// A required string field of a mapping.
fn req_string(es: &Vec<(Yaml, Yaml)>, key: &str) -> (r: Option<String>)
    ensures
        match r {
            Some(v) => req_string_spec(es@, key@) == Some(v@),
            None => req_string_spec(es@, key@) is None,
        },
{
    match map_lookup(es, key) {
        Some(v) => match v {
            Yaml::Str(s) => Some(s.clone()),
            _ => None,
        },
        None => None,
    }
}

/// The rule table a YAML node denotes.
pub fn language_files_from_yaml(y: &Yaml) -> (r: Option<LanguageFiles>)
    ensures
        match r {
            Some(lf) => lf_model_of_yaml(*y) == Some(lf@),
            None => lf_model_of_yaml(*y) is None,
        },
{
    match y {
        Yaml::Mapping(es) => {
            let common = opt_string_list(es, "common");
            let python = opt_string_list(es, "python");
            let typescript = opt_string_list(es, "typescript");
            let javascript = opt_string_list(es, "javascript");
            let node = opt_string_list(es, "node");
            let rust = opt_string_list(es, "rust");
            match (common, python, typescript, javascript, node, rust) {
                (Some(common), Some(python), Some(typescript), Some(javascript), Some(node), Some(
                    rust,
                )) => {
                    let lf = LanguageFiles { common, python, typescript, javascript, node, rust };
                    proof {
                        assert(lf_model_of_yaml(*y).unwrap() =~= lf@);
                    }
                    Some(lf)
                },
                _ => None,
            }
        },
        _ => None,
    }
}

/// The shared-file entry a YAML node denotes.
fn shared_file_from_yaml(y: &Yaml) -> (r: Option<SharedFile>)
    ensures
        match r {
            Some(sf) => shared_file_of_yaml(*y) == Some(sf@),
            None => shared_file_of_yaml(*y) is None,
        },
{
    match y {
        Yaml::Mapping(es) => match map_lookup(es, "source") {
            Some(v) => match v {
                Yaml::Str(s) => {
                    let dest: Option<Option<String>> = match map_lookup(es, "dest") {
                        None => Some(None),
                        Some(d) => match d {
                            Yaml::Null => Some(None),
                            Yaml::Str(ds) => Some(Some(ds.clone())),
                            _ => None,
                        },
                    };
                    match dest {
                        Some(dest) => Some(SharedFile { source: s.clone(), dest }),
                        None => None,
                    }
                },
                _ => None,
            },
            None => None,
        },
        _ => None,
    }
}

/// Once a prefix fails to be a shared-file list, the whole sequence fails.
proof fn lemma_shared_list_none_extends(xs: Seq<Yaml>, i: int)
    requires
        0 <= i <= xs.len(),
        shared_list_spec(xs.take(i)) is None,
    ensures
        shared_list_spec(xs) is None,
    decreases xs.len() - i,
{
    if i < xs.len() {
        assert(xs.take(i + 1).drop_last() =~= xs.take(i));
        lemma_shared_list_none_extends(xs, i + 1);
    } else {
        assert(xs.take(i) =~= xs);
    }
}

/// The shared-file entries of a sequence node.
fn shared_files_from_yaml(xs: &Vec<Yaml>) -> (r: Option<Vec<SharedFile>>)
    ensures
        match r {
            Some(v) => shared_list_spec(xs@) == Some(v@.map_values(|s: SharedFile| s@)),
            None => shared_list_spec(xs@) is None,
        },
{
    let mut r: Vec<SharedFile> = Vec::new();
    proof {
        assert(r@.map_values(|s: SharedFile| s@) =~= Seq::<SharedFileModel>::empty());
    }
    let mut i: usize = 0;
    while i < xs.len()
        invariant
            i <= xs.len(),
            shared_list_spec(xs@.take(i as int)) == Some(r@.map_values(|s: SharedFile| s@)),
        decreases xs.len() - i,
    {
        proof {
            assert(xs@.take(i + 1).drop_last() =~= xs@.take(i as int));
            assert(xs@.take(i + 1).last() == xs@[i as int]);
        }
        match shared_file_from_yaml(&xs[i]) {
            Some(sf) => {
                r.push(sf);
                proof {
                    assert(r@.map_values(|s: SharedFile| s@) =~= r@.drop_last().map_values(
                        |s: SharedFile| s@,
                    ).push(r@.last()@));
                }
            },
            None => {
                proof {
                    lemma_shared_list_none_extends(xs@, i + 1);
                }
                return None;
            },
        }
        i += 1;
    }
    proof {
        assert(xs@.take(xs@.len() as int) =~= xs@);
    }
    Some(r)
}

/// The root manifest a YAML document denotes.
pub fn root_manifest_from_yaml(y: &Yaml) -> (r: Option<RootManifest>)
    ensures
        match r {
            Some(m) => root_manifest_of_yaml(*y) == Some(m@),
            None => root_manifest_of_yaml(*y) is None,
        },
{
    match y {
        Yaml::Mapping(es) => {
            let templates = req_string_list(es, "templates");
            let lf: Option<LanguageFiles> = match map_lookup(es, "language_files") {
                None => Some(LanguageFiles::new()),
                Some(v) => language_files_from_yaml(v),
            };
            let shared: Option<Vec<SharedFile>> = match map_lookup(es, "shared_files") {
                None => {
                    let v: Vec<SharedFile> = Vec::new();
                    proof {
                        assert(v@.map_values(|s: SharedFile| s@) =~= Seq::<
                            SharedFileModel,
                        >::empty());
                    }
                    Some(v)
                },
                Some(v) => match v {
                    Yaml::Sequence(xs) => shared_files_from_yaml(xs),
                    _ => None,
                },
            };
            match (templates, lf, shared) {
                (Some(templates), Some(language_files), Some(shared_files)) => {
                    let m = RootManifest { templates, language_files, shared_files };
                    proof {
                        assert(root_manifest_of_yaml(*y).unwrap() =~= m@);
                    }
                    Some(m)
                },
                _ => None,
            }
        },
        _ => None,
    }
}

/// The per-template manifest a YAML document denotes.
pub fn template_manifest_from_yaml(y: &Yaml) -> (r: Option<TemplateManifest>)
    ensures
        match r {
            Some(m) => template_manifest_of_yaml(*y) == Some(m@),
            None => template_manifest_of_yaml(*y) is None,
        },
{
    match y {
        Yaml::Mapping(es) => {
            let name = req_string(es, "name");
            let description = req_string(es, "description");
            let version = req_string(es, "version");
            let requires_list = opt_string_list(es, "requires");
            let optional = opt_string_list(es, "optional");
            let flag: Option<bool> = match map_lookup(es, "treat_required_as_included") {
                Some(v) => match v {
                    Yaml::Bool(b) => Some(*b),
                    _ => None,
                },
                None => match map_lookup(es, "treat_required_as_suggested") {
                    Some(v) => match v {
                        Yaml::Bool(b) => Some(*b),
                        _ => None,
                    },
                    None => Some(false),
                },
            };
            let files = req_string_list(es, "files");
            let lf: Option<LanguageFiles> = match map_lookup(es, "language_files") {
                None => Some(LanguageFiles::new()),
                Some(v) => language_files_from_yaml(v),
            };
            match (name, description, version, requires_list, optional, flag, files, lf) {
                (
                    Some(name),
                    Some(description),
                    Some(version),
                    Some(requires_list),
                    Some(optional),
                    Some(flag),
                    Some(files),
                    Some(language_files),
                ) => {
                    let m = TemplateManifest {
                        name,
                        description,
                        version,
                        requires: requires_list,
                        optional,
                        treat_required_as_included: flag,
                        files,
                        language_files,
                    };
                    proof {
                        assert(template_manifest_of_yaml(*y).unwrap() =~= m@);
                    }
                    Some(m)
                },
                _ => None,
            }
        },
        _ => None,
    }
}

/// The root manifest a text denotes: parse, then map the schema.
pub open spec fn root_manifest_of_text(s: Seq<char>) -> Option<RootManifestModel> {
    match yaml_of(s) {
        Some(y) => root_manifest_of_yaml(y),
        None => None,
    }
}

/// The per-template manifest a text denotes.
pub open spec fn template_manifest_of_text(s: Seq<char>) -> Option<ManifestModel> {
    match yaml_of(s) {
        Some(y) => template_manifest_of_yaml(y),
        None => None,
    }
}

/// Parse a root manifest document. Returns the manifest exactly when the
/// text parses as YAML and matches the root-manifest schema, and a parse
/// error otherwise.
pub fn parse_root_manifest(text: &str) -> (r: Result<RootManifest, TemplateError>)
    ensures
        r is Ok <==> root_manifest_of_text(text@) is Some,
        match r {
            Ok(m) => root_manifest_of_text(text@) == Some(m@),
            Err(e) => e matches TemplateError::Parse { context } && context@ == "root manifest"@,
        },
{
    let parsed = parse_yaml(text);
    match parsed {
        Some(y) => match root_manifest_from_yaml(&y) {
            Some(m) => Ok(m),
            None => Err(TemplateError::Parse { context: "root manifest".to_owned() }),
        },
        None => Err(TemplateError::Parse { context: "root manifest".to_owned() }),
    }
}

/// Parse a per-template manifest document; `template_name` names the
/// offending template in the error.
pub fn parse_template_manifest(text: &str, template_name: &str) -> (r: Result<
    TemplateManifest,
    TemplateError,
>)
    ensures
        r is Ok <==> template_manifest_of_text(text@) is Some,
        match r {
            Ok(m) => template_manifest_of_text(text@) == Some(m@),
            Err(e) => e matches TemplateError::Parse { context } && context@ == template_name@,
        },
{
    let parsed = parse_yaml(text);
    match parsed {
        Some(y) => match template_manifest_from_yaml(&y) {
            Some(m) => Ok(m),
            None => Err(TemplateError::Parse { context: template_name.to_owned() }),
        },
        None => Err(TemplateError::Parse { context: template_name.to_owned() }),
    }
}

/// A missed key steps the lookup past the first entry.
proof fn lemma_lookup_miss(es: Seq<(Yaml, Yaml)>, key: Seq<char>)
    requires
        es.len() > 0,
        !(es.first().0 matches Yaml::Str(k) && k@ == key),
    ensures
        map_lookup_spec(es, key) == map_lookup_spec(es.drop_first(), key),
{
}

/// A matching first key ends the lookup.
proof fn lemma_lookup_hit(es: Seq<(Yaml, Yaml)>, key: Seq<char>)
    requires
        es.len() > 0,
        es.first().0 matches Yaml::Str(k) && k@ == key,
    ensures
        map_lookup_spec(es, key) == Some(es.first().1),
{
}

/// The models of a list of plain strings.
pub open spec fn strs_model(ss: Seq<Seq<char>>) -> Seq<crate::yaml::YamlModel> {
    ss.map_values(|s: Seq<char>| crate::yaml::YamlModel::Str(s))
}

/// The mapping node a rule table serializes to, as a model: one bucket key
/// per entry, each holding the bucket's patterns as a string sequence.
pub open spec fn lf_yaml_model(lf: LfModel) -> crate::yaml::YamlModel {
    crate::yaml::YamlModel::Mapping(
        seq![
            (
                crate::yaml::YamlModel::Str("common"@),
                crate::yaml::YamlModel::Sequence(strs_model(lf.common)),
            ),
            (
                crate::yaml::YamlModel::Str("python"@),
                crate::yaml::YamlModel::Sequence(strs_model(lf.python)),
            ),
            (
                crate::yaml::YamlModel::Str("typescript"@),
                crate::yaml::YamlModel::Sequence(strs_model(lf.typescript)),
            ),
            (
                crate::yaml::YamlModel::Str("javascript"@),
                crate::yaml::YamlModel::Sequence(strs_model(lf.javascript)),
            ),
            (
                crate::yaml::YamlModel::Str("node"@),
                crate::yaml::YamlModel::Sequence(strs_model(lf.node)),
            ),
            (
                crate::yaml::YamlModel::Str("rust"@),
                crate::yaml::YamlModel::Sequence(strs_model(lf.rust)),
            ),
        ],
    )
}

/// The document a per-template manifest serializes to, as a model: the
/// eight schema keys in serialization order.
pub open spec fn manifest_yaml_model(m: ManifestModel) -> crate::yaml::YamlModel {
    crate::yaml::YamlModel::Mapping(
        seq![
            (crate::yaml::YamlModel::Str("name"@), crate::yaml::YamlModel::Str(m.name)),
            (
                crate::yaml::YamlModel::Str("description"@),
                crate::yaml::YamlModel::Str(m.description),
            ),
            (crate::yaml::YamlModel::Str("version"@), crate::yaml::YamlModel::Str(m.version)),
            (
                crate::yaml::YamlModel::Str("requires"@),
                crate::yaml::YamlModel::Sequence(strs_model(m.requires)),
            ),
            (
                crate::yaml::YamlModel::Str("optional"@),
                crate::yaml::YamlModel::Sequence(strs_model(m.optional)),
            ),
            (
                crate::yaml::YamlModel::Str("treat_required_as_included"@),
                crate::yaml::YamlModel::Bool(m.treat_required_as_included),
            ),
            (
                crate::yaml::YamlModel::Str("files"@),
                crate::yaml::YamlModel::Sequence(strs_model(m.files)),
            ),
            (crate::yaml::YamlModel::Str("language_files"@), lf_yaml_model(m.language_files)),
        ],
    )
}

/// Turn a string list into a sequence node's elements.
fn strings_to_yaml(v: &Vec<String>) -> (ys: Vec<Yaml>)
    ensures
        string_list_spec(ys@) == Some(patterns_view(v@)),
        forall|i: int| 0 <= i < ys@.len() ==> (#[trigger] ys@[i]) is Str,
        crate::yaml::yaml_models(ys@) == strs_model(patterns_view(v@)),
{
    let mut ys: Vec<Yaml> = Vec::new();
    let mut i: usize = 0;
    while i < v.len()
        invariant
            i <= v.len(),
            ys@.len() == i,
            string_list_spec(ys@) == Some(patterns_view(v@.take(i as int))),
            forall|j: int| 0 <= j < ys@.len() ==> (#[trigger] ys@[j]) is Str,
            forall|j: int|
                0 <= j < ys@.len() ==> crate::yaml::yaml_model(#[trigger] ys@[j])
                    == crate::yaml::YamlModel::Str(patterns_view(v@.take(i as int))[j]),
        decreases v.len() - i,
    {
        let ghost prev = ys@;
        ys.push(Yaml::Str(v[i].clone()));
        proof {
            assert(ys@.drop_last() =~= prev);
            assert(patterns_view(v@.take(i + 1)) =~= patterns_view(v@.take(i as int)).push(
                v@[i as int]@,
            ));
            assert forall|j: int|
                0 <= j < ys@.len() implies crate::yaml::yaml_model(#[trigger] ys@[j])
                == crate::yaml::YamlModel::Str(patterns_view(v@.take(i + 1))[j]) by {
                if j < ys@.len() - 1 {
                    assert(ys@[j] == prev[j]);
                } else {
                    assert(ys@[j] == Yaml::Str(ys@[j]->Str_0));
                }
            }
        }
        i += 1;
    }
    proof {
        assert(v@.take(v@.len() as int) =~= v@);
        crate::yaml::lemma_yaml_models_index(ys@);
        assert(crate::yaml::yaml_models(ys@) =~= strs_model(patterns_view(v@)));
    }
    ys
}

/// Turn a rule table into a YAML mapping node that the schema maps back to
/// the same table.
pub fn language_files_to_yaml(lf: &LanguageFiles) -> (y: Yaml)
    ensures
        lf_model_of_yaml(y) == Some(lf@),
        crate::yaml::emittable_to_depth(y, 3),
        crate::yaml::yaml_model(y) == lf_yaml_model(lf@),
{
    let mut es: Vec<(Yaml, Yaml)> = Vec::new();
    es.push((Yaml::Str("common".to_owned()), Yaml::Sequence(strings_to_yaml(&lf.common))));
    es.push((Yaml::Str("python".to_owned()), Yaml::Sequence(strings_to_yaml(&lf.python))));
    es.push((Yaml::Str("typescript".to_owned()), Yaml::Sequence(strings_to_yaml(&lf.typescript))));
    es.push((Yaml::Str("javascript".to_owned()), Yaml::Sequence(strings_to_yaml(&lf.javascript))));
    es.push((Yaml::Str("node".to_owned()), Yaml::Sequence(strings_to_yaml(&lf.node))));
    es.push((Yaml::Str("rust".to_owned()), Yaml::Sequence(strings_to_yaml(&lf.rust))));
    let y = Yaml::Mapping(es);
    proof {
        reveal_strlit("common");
        reveal_strlit("python");
        reveal_strlit("typescript");
        reveal_strlit("javascript");
        reveal_strlit("node");
        reveal_strlit("rust");
        let s = y->Mapping_0@;
        let t1 = s.drop_first();
        let t2 = t1.drop_first();
        let t3 = t2.drop_first();
        let t4 = t3.drop_first();
        let t5 = t4.drop_first();
        assert(s.len() == 6);
        assert("common"@.len() == 6);
        assert("python"@.len() == 6);
        assert("typescript"@.len() == 10);
        assert("javascript"@.len() == 10);
        assert("node"@.len() == 4);
        assert("rust"@.len() == 4);
        assert("common"@[0] == 'c');
        assert("python"@[0] == 'p');
        assert("typescript"@[0] == 't');
        assert("javascript"@[0] == 'j');
        assert("node"@[0] == 'n');
        assert("rust"@[0] == 'r');
        lemma_lookup_hit(s, "common"@);
        lemma_lookup_miss(s, "python"@);
        lemma_lookup_hit(t1, "python"@);
        lemma_lookup_miss(s, "typescript"@);
        lemma_lookup_miss(t1, "typescript"@);
        lemma_lookup_hit(t2, "typescript"@);
        lemma_lookup_miss(s, "javascript"@);
        lemma_lookup_miss(t1, "javascript"@);
        lemma_lookup_miss(t2, "javascript"@);
        lemma_lookup_hit(t3, "javascript"@);
        lemma_lookup_miss(s, "node"@);
        lemma_lookup_miss(t1, "node"@);
        lemma_lookup_miss(t2, "node"@);
        lemma_lookup_miss(t3, "node"@);
        lemma_lookup_hit(t4, "node"@);
        lemma_lookup_miss(s, "rust"@);
        lemma_lookup_miss(t1, "rust"@);
        lemma_lookup_miss(t2, "rust"@);
        lemma_lookup_miss(t3, "rust"@);
        lemma_lookup_miss(t4, "rust"@);
        lemma_lookup_hit(t5, "rust"@);
        assert(lf_model_of_yaml(y).unwrap() =~= lf@);
        assert forall|i: int, j: int| 0 <= i < j < s.len() implies (#[trigger] s[i].0)->Str_0@
            != (#[trigger] s[j].0)->Str_0@ by {
            if i == 0 {
                assert(s[i].0->Str_0@ == "common"@);
            } else if i == 1 {
                assert(s[i].0->Str_0@ == "python"@);
            } else if i == 2 {
                assert(s[i].0->Str_0@ == "typescript"@);
            } else if i == 3 {
                assert(s[i].0->Str_0@ == "javascript"@);
            } else if i == 4 {
                assert(s[i].0->Str_0@ == "node"@);
            }
            if j == 1 {
                assert(s[j].0->Str_0@ == "python"@);
            } else if j == 2 {
                assert(s[j].0->Str_0@ == "typescript"@);
            } else if j == 3 {
                assert(s[j].0->Str_0@ == "javascript"@);
            } else if j == 4 {
                assert(s[j].0->Str_0@ == "node"@);
            } else if j == 5 {
                assert(s[j].0->Str_0@ == "rust"@);
            }
        }
        assert forall|i: int| 0 <= i < s.len() implies (#[trigger] s[i].0) is Str
            && crate::yaml::emittable_to_depth(s[i].1, 2nat) by {
            let v = s[i].1;
            assert(v is Sequence);
            assert forall|k: int|
                0 <= k < v->Sequence_0@.len() implies crate::yaml::emittable_to_depth(
                #[trigger] v->Sequence_0@[k],
                1nat,
            ) by {
                assert(v->Sequence_0@[k] is Str);
            }
        }
        assert(crate::yaml::emittable_to_depth(y, 3nat));
        crate::yaml::lemma_yaml_pair_models_index(s);
        assert(crate::yaml::yaml_models(s[0].1->Sequence_0@) =~= strs_model(lf@.common));
        assert(crate::yaml::yaml_models(s[1].1->Sequence_0@) =~= strs_model(lf@.python));
        assert(crate::yaml::yaml_models(s[2].1->Sequence_0@) =~= strs_model(lf@.typescript));
        assert(crate::yaml::yaml_models(s[3].1->Sequence_0@) =~= strs_model(lf@.javascript));
        assert(crate::yaml::yaml_models(s[4].1->Sequence_0@) =~= strs_model(lf@.node));
        assert(crate::yaml::yaml_models(s[5].1->Sequence_0@) =~= strs_model(lf@.rust));
        assert(crate::yaml::yaml_pair_models(s) =~= lf_yaml_model(lf@)->Mapping_0);
        assert(crate::yaml::yaml_model(y) == lf_yaml_model(lf@));
    }
    y
}

/// Turn a per-template manifest into a YAML document that the schema maps
/// back to the same manifest.
pub fn template_manifest_to_yaml(m: &TemplateManifest) -> (y: Yaml)
    ensures
        template_manifest_of_yaml(y) == Some(m@),
        crate::yaml::emittable_to_depth(y, 4),
        crate::yaml::emittable(y),
        crate::yaml::yaml_model(y) == manifest_yaml_model(m@),
{
    let lf_yaml = language_files_to_yaml(&m.language_files);
    let ghost lf_ghost = lf_yaml;
    let mut es: Vec<(Yaml, Yaml)> = Vec::new();
    es.push((Yaml::Str("name".to_owned()), Yaml::Str(m.name.clone())));
    es.push((Yaml::Str("description".to_owned()), Yaml::Str(m.description.clone())));
    es.push((Yaml::Str("version".to_owned()), Yaml::Str(m.version.clone())));
    es.push((Yaml::Str("requires".to_owned()), Yaml::Sequence(strings_to_yaml(&m.requires))));
    es.push((Yaml::Str("optional".to_owned()), Yaml::Sequence(strings_to_yaml(&m.optional))));
    es.push(
        (
            Yaml::Str("treat_required_as_included".to_owned()),
            Yaml::Bool(m.treat_required_as_included),
        ),
    );
    es.push((Yaml::Str("files".to_owned()), Yaml::Sequence(strings_to_yaml(&m.files))));
    es.push((Yaml::Str("language_files".to_owned()), lf_yaml));
    let y = Yaml::Mapping(es);
    proof {
        reveal_strlit("name");
        reveal_strlit("description");
        reveal_strlit("version");
        reveal_strlit("requires");
        reveal_strlit("optional");
        reveal_strlit("treat_required_as_included");
        reveal_strlit("treat_required_as_suggested");
        reveal_strlit("files");
        reveal_strlit("language_files");
        let s = y->Mapping_0@;
        assert(s.len() == 8);
        assert("name"@[0] == 'n');
        assert("description"@[0] == 'd');
        assert("version"@[0] == 'v');
        assert("requires"@[0] == 'r');
        assert("optional"@[0] == 'o');
        assert("treat_required_as_included"@[0] == 't');
        assert("files"@[0] == 'f');
        assert("language_files"@[0] == 'l');
        assert("name"@.len() == 4);
        assert("description"@.len() == 11);
        assert("version"@.len() == 7);
        assert("requires"@.len() == 8);
        assert("optional"@.len() == 8);
        assert("treat_required_as_included"@.len() == 26);
        assert("files"@.len() == 5);
        assert("language_files"@.len() == 14);
        let t1 = s.drop_first();
        let t2 = t1.drop_first();
        let t3 = t2.drop_first();
        let t4 = t3.drop_first();
        let t5 = t4.drop_first();
        let t6 = t5.drop_first();
        let t7 = t6.drop_first();
        lemma_lookup_hit(s, "name"@);
        lemma_lookup_miss(s, "description"@);
        lemma_lookup_hit(t1, "description"@);
        lemma_lookup_miss(s, "version"@);
        lemma_lookup_miss(t1, "version"@);
        lemma_lookup_hit(t2, "version"@);
        lemma_lookup_miss(s, "requires"@);
        lemma_lookup_miss(t1, "requires"@);
        lemma_lookup_miss(t2, "requires"@);
        lemma_lookup_hit(t3, "requires"@);
        lemma_lookup_miss(s, "optional"@);
        lemma_lookup_miss(t1, "optional"@);
        lemma_lookup_miss(t2, "optional"@);
        lemma_lookup_miss(t3, "optional"@);
        lemma_lookup_hit(t4, "optional"@);
        lemma_lookup_miss(s, "treat_required_as_included"@);
        lemma_lookup_miss(t1, "treat_required_as_included"@);
        lemma_lookup_miss(t2, "treat_required_as_included"@);
        lemma_lookup_miss(t3, "treat_required_as_included"@);
        lemma_lookup_miss(t4, "treat_required_as_included"@);
        lemma_lookup_hit(t5, "treat_required_as_included"@);
        lemma_lookup_miss(s, "files"@);
        lemma_lookup_miss(t1, "files"@);
        lemma_lookup_miss(t2, "files"@);
        lemma_lookup_miss(t3, "files"@);
        lemma_lookup_miss(t4, "files"@);
        lemma_lookup_miss(t5, "files"@);
        lemma_lookup_hit(t6, "files"@);
        lemma_lookup_miss(s, "language_files"@);
        lemma_lookup_miss(t1, "language_files"@);
        lemma_lookup_miss(t2, "language_files"@);
        lemma_lookup_miss(t3, "language_files"@);
        lemma_lookup_miss(t4, "language_files"@);
        lemma_lookup_miss(t5, "language_files"@);
        lemma_lookup_miss(t6, "language_files"@);
        lemma_lookup_hit(t7, "language_files"@);
        assert(template_manifest_of_yaml(y).unwrap() =~= m@);
        assert forall|i: int, j: int| 0 <= i < j < s.len() implies (#[trigger] s[i].0)->Str_0@
            != (#[trigger] s[j].0)->Str_0@ by {
            if i == 0 {
                assert(s[i].0->Str_0@ == "name"@);
            } else if i == 1 {
                assert(s[i].0->Str_0@ == "description"@);
            } else if i == 2 {
                assert(s[i].0->Str_0@ == "version"@);
            } else if i == 3 {
                assert(s[i].0->Str_0@ == "requires"@);
            } else if i == 4 {
                assert(s[i].0->Str_0@ == "optional"@);
            } else if i == 5 {
                assert(s[i].0->Str_0@ == "treat_required_as_included"@);
            } else if i == 6 {
                assert(s[i].0->Str_0@ == "files"@);
            }
            if j == 1 {
                assert(s[j].0->Str_0@ == "description"@);
            } else if j == 2 {
                assert(s[j].0->Str_0@ == "version"@);
            } else if j == 3 {
                assert(s[j].0->Str_0@ == "requires"@);
            } else if j == 4 {
                assert(s[j].0->Str_0@ == "optional"@);
            } else if j == 5 {
                assert(s[j].0->Str_0@ == "treat_required_as_included"@);
            } else if j == 6 {
                assert(s[j].0->Str_0@ == "files"@);
            } else if j == 7 {
                assert(s[j].0->Str_0@ == "language_files"@);
            }
        }
        assert forall|i: int| 0 <= i < s.len() implies (#[trigger] s[i].0) is Str
            && crate::yaml::emittable_to_depth(s[i].1, 3nat) by {
            if i == 3 || i == 4 || i == 6 {
                let v = s[i].1;
                assert(v is Sequence);
                assert forall|k: int|
                    0 <= k < v->Sequence_0@.len() implies crate::yaml::emittable_to_depth(
                    #[trigger] v->Sequence_0@[k],
                    2nat,
                ) by {
                    assert(v->Sequence_0@[k] is Str);
                }
            } else if i == 7 {
                assert(s[i].1 == lf_ghost);
            }
        }
        assert(crate::yaml::emittable_to_depth(y, 4nat));
        crate::yaml::lemma_emittable_depth_weaken(y, 4nat, 100nat);
        crate::yaml::lemma_yaml_pair_models_index(s);
        assert(crate::yaml::yaml_models(s[3].1->Sequence_0@) =~= strs_model(m@.requires));
        assert(crate::yaml::yaml_models(s[4].1->Sequence_0@) =~= strs_model(m@.optional));
        assert(crate::yaml::yaml_models(s[6].1->Sequence_0@) =~= strs_model(m@.files));
        assert(crate::yaml::yaml_model(s[7].1) == lf_yaml_model(m@.language_files));
        assert(crate::yaml::yaml_pair_models(s) =~= manifest_yaml_model(m@)->Mapping_0);
        assert(crate::yaml::yaml_model(y) == manifest_yaml_model(m@));
    }
    y
}

/// Serialize a per-template manifest to YAML text. Serialization succeeds,
/// the produced text is a function of the manifest's model alone, and it
/// parses back to exactly this manifest.
pub fn serialize_template_manifest(m: &TemplateManifest) -> (r: Option<String>)
    ensures
        r is Some,
        match r {
            Some(s) => template_manifest_of_text(s@) == Some(m@) && s@ == crate::yaml::yaml_text(
                manifest_yaml_model(m@),
            ),
            None => true,
        },
{
    let y = template_manifest_to_yaml(m);
    crate::yaml::emit_yaml(&y)
}

} // verus!
