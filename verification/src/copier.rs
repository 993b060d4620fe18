//! The inclusion decision of the copy engine: which files of a template ship
//! in the generated project, given the selected languages and the merged
//! language-file rules.

use vstd::prelude::*;

use crate::errors::TemplateError;
use crate::fetcher::{CacheModel, TemplateFetcher};
use crate::manifest::{
    patterns_view, FileLanguage, LanguageFiles, LfModel, TemplateManifest,
};
use crate::runtime::{contains_language, Language};

verus! {

/// The inclusion decision for one file: files of the common bucket always
/// ship; files of a language bucket ship only when that language (for the
/// node bucket: TypeScript or JavaScript) is selected; files matching no
/// bucket are excluded by default.
pub open spec fn should_include_spec(path: Seq<char>, selected: Seq<Language>, lf: LfModel) -> bool {
    match lf.bucket_for(path) {
        Some(FileLanguage::Common) => true,
        Some(FileLanguage::Python) => selected.contains(Language::Python),
        Some(FileLanguage::TypeScript) => selected.contains(Language::TypeScript),
        Some(FileLanguage::JavaScript) => selected.contains(Language::JavaScript),
        Some(FileLanguage::Node) => selected.contains(Language::TypeScript) || selected.contains(
            Language::JavaScript,
        ),
        Some(FileLanguage::Rust) => selected.contains(Language::Rust),
        None => false,
    }
}

/// Whether a file ships, given the selected languages and the merged
/// language-file rules.
pub fn should_include_file(
    file_path: &str,
    selected_languages: &Vec<Language>,
    language_files: &LanguageFiles,
) -> (r: bool)
    ensures
        r == should_include_spec(file_path@, selected_languages@, language_files@),
{
    match language_files.get_language_for_file(file_path) {
        Some(FileLanguage::Common) => true,
        Some(FileLanguage::Python) => contains_language(selected_languages, Language::Python),
        Some(FileLanguage::TypeScript) => contains_language(
            selected_languages,
            Language::TypeScript,
        ),
        Some(FileLanguage::JavaScript) => contains_language(
            selected_languages,
            Language::JavaScript,
        ),
        Some(FileLanguage::Node) => contains_language(selected_languages, Language::TypeScript)
            || contains_language(selected_languages, Language::JavaScript),
        Some(FileLanguage::Rust) => contains_language(selected_languages, Language::Rust),
        None => false,
    }
}

/// The ordered sublist of `files` that ships for the given selection.
pub open spec fn included_files_spec(
    files: Seq<Seq<char>>,
    selected: Seq<Language>,
    lf: LfModel,
) -> Seq<Seq<char>> {
    files.filter(|p: Seq<char>| should_include_spec(p, selected, lf))
}

/// One step of filtering: extending the prefix by one element either appends
/// that element to the filtered list or leaves it unchanged.
pub proof fn lemma_filter_take_step<A>(s: Seq<A>, pred: spec_fn(A) -> bool, i: int)
    requires
        0 <= i < s.len(),
    ensures
        s.take(i + 1).filter(pred) == if pred(s[i]) {
            s.take(i).filter(pred).push(s[i])
        } else {
            s.take(i).filter(pred)
        },
{
    reveal(Seq::filter);
    assert(s.take(i + 1).drop_last() =~= s.take(i));
    assert(s.take(i + 1).last() == s[i]);
}

/// Filtering the empty prefix yields the empty list.
pub proof fn lemma_filter_take_zero<A>(s: Seq<A>, pred: spec_fn(A) -> bool)
    ensures
        s.take(0).filter(pred) == Seq::<A>::empty(),
{
    reveal(Seq::filter);
    assert(s.take(0).filter(pred) =~= Seq::<A>::empty());
}

/// The list of files that would be copied for the given selection, in
/// manifest order.
pub fn preview_files(
    manifest: &TemplateManifest,
    selected_languages: &Vec<Language>,
    language_files: &LanguageFiles,
) -> (r: Vec<String>)
    ensures
        patterns_view(r@) == included_files_spec(
            manifest@.files,
            selected_languages@,
            language_files@,
        ),
{
    let ghost pred = |p: Seq<char>| should_include_spec(p, selected_languages@, language_files@);
    let ghost fs = manifest@.files;
    let mut r: Vec<String> = Vec::new();
    proof {
        lemma_filter_take_zero(fs, pred);
        assert(patterns_view(r@) =~= Seq::<Seq<char>>::empty());
    }
    let mut i: usize = 0;
    while i < manifest.files.len()
        invariant
            i <= manifest.files.len(),
            fs == manifest@.files,
            fs.len() == manifest.files@.len(),
            pred == (|p: Seq<char>| should_include_spec(p, selected_languages@, language_files@)),
            patterns_view(r@) == fs.take(i as int).filter(pred),
        decreases manifest.files.len() - i,
    {
        proof {
            assert(fs[i as int] == manifest.files@[i as int]@);
            lemma_filter_take_step(fs, pred, i as int);
        }
        if should_include_file(manifest.files[i].as_str(), selected_languages, language_files) {
            r.push(manifest.files[i].clone());
            proof {
                assert(patterns_view(r@) =~= fs.take(i as int).filter(pred).push(fs[i as int]));
            }
        }
        i += 1;
    }
    proof {
        assert(fs.take(fs.len() as int) =~= fs);
    }
    r
}

/// One file to write into the target directory: its template-relative path
/// and its verbatim contents.
pub struct CopiedFile {
    pub path: String,
    pub contents: Vec<u8>,
}

/// The paths of a copied-file list, in order.
pub open spec fn copied_paths(v: Seq<CopiedFile>) -> Seq<Seq<char>> {
    v.map_values(|c: CopiedFile| c.path@)
}

/// Every file of `included` is available in the fetcher's cache for the
/// template: the template is cached and its package holds the file.
pub open spec fn all_included_available(
    fetcher: crate::fetcher::FetcherModel,
    name: Seq<char>,
    included: Seq<Seq<char>>,
) -> bool {
    forall|k: int|
        0 <= k < included.len() ==> (fetcher.caches.contains_key(name)
            && fetcher.caches[name].files.contains_key(#[trigger] included[k]))
}

/// The copy engine's guarantee: on success the result lists exactly the
/// included files of the manifest, in manifest order, each carrying the
/// cached package's bytes for its path; success comes exactly when every
/// included file is available; on failure the error tells a missing
/// template apart from a missing file.
pub open spec fn copy_template_post(
    r: Result<Vec<CopiedFile>, TemplateError>,
    fetcher: crate::fetcher::FetcherModel,
    name: Seq<char>,
    included: Seq<Seq<char>>,
) -> bool {
    &&& (r is Ok <==> all_included_available(fetcher, name, included))
    &&& match r {
        Ok(v) => copied_paths(v@) == included && (forall|j: int|
            0 <= j < v@.len() ==> (#[trigger] v@[j]).contents@
                == fetcher.caches[name].files[v@[j].path@]),
        Err(e) => match e {
            TemplateError::TemplateNotFound { name: n } => n@ == name
                && !fetcher.caches.contains_key(name) && included.len() > 0,
            TemplateError::FileNotFound { template, path } => template@ == name
                && fetcher.caches.contains_key(name) && included.contains(path@)
                && !fetcher.caches[name].files.contains_key(path@),
            _ => false,
        },
    }
}

/// The copy engine: for each path of the manifest's file list, in list
/// order, decide inclusion; for each included path, read its verbatim
/// contents from the template's cached package. The result lists exactly
/// the included files, in manifest order, each with the bytes to write.
/// Fails with a not-found error when an included file must be read but the
/// template is not cached, and with a file-not-found error when the cached
/// package lacks an included path.
#[verifier::loop_isolation(false)]
pub fn copy_template(
    fetcher: &TemplateFetcher,
    template_name: &str,
    manifest: &TemplateManifest,
    selected_languages: &Vec<Language>,
    language_files: &LanguageFiles,
) -> (r: Result<Vec<CopiedFile>, TemplateError>)
    ensures
        copy_template_post(
            r,
            fetcher@,
            template_name@,
            included_files_spec(manifest@.files, selected_languages@, language_files@),
        ),
{
    let ghost pred = |p: Seq<char>| should_include_spec(p, selected_languages@, language_files@);
    let ghost fs = manifest@.files;
    let ghost included = included_files_spec(manifest@.files, selected_languages@, language_files@);
    let mut out: Vec<CopiedFile> = Vec::new();
    proof {
        lemma_filter_take_zero(fs, pred);
        assert(copied_paths(out@) =~= Seq::<Seq<char>>::empty());
    }
    let mut i: usize = 0;
    while i < manifest.files.len()
        invariant
            i <= manifest.files.len(),
            fs == manifest@.files,
            fs.len() == manifest.files@.len(),
            included == fs.filter(pred),
            pred == (|p: Seq<char>| should_include_spec(p, selected_languages@, language_files@)),
            copied_paths(out@) == fs.take(i as int).filter(pred),
            out@.len() > 0 ==> fetcher@.caches.contains_key(template_name@),
            forall|j: int|
                0 <= j < out@.len() ==> fetcher@.caches[template_name@].files.contains_key(
                    (#[trigger] out@[j]).path@,
                ),
            forall|j: int|
                0 <= j < out@.len() ==> (#[trigger] out@[j]).contents@
                    == fetcher@.caches[template_name@].files[out@[j].path@],
        decreases manifest.files.len() - i,
    {
        proof {
            assert(fs[i as int] == manifest.files@[i as int]@);
            lemma_filter_take_step(fs, pred, i as int);
        }
        if should_include_file(manifest.files[i].as_str(), selected_languages, language_files) {
            let ghost prev_paths = copied_paths(out@);
            match fetcher.fetch_file_bytes(template_name, manifest.files[i].as_str()) {
                Ok(data) => {
                    let ghost prev_out = out@;
                    let ghost data_v = data@;
                    out.push(CopiedFile { path: manifest.files[i].clone(), contents: data });
                    proof {
                        assert(out@.drop_last() =~= prev_out);
                        assert(out@.len() == prev_out.len() + 1);
                        assert(copied_paths(out@) =~= prev_paths.push(fs[i as int]));
                        assert forall|j: int|
                            0 <= j < out@.len() implies fetcher@.caches[template_name@].files.contains_key(
                            (#[trigger] out@[j]).path@,
                        ) && out@[j].contents@ == fetcher@.caches[template_name@].files[out@[j].path@] by {
                            if j < out@.len() - 1 {
                                assert(out@[j] == prev_out[j]);
                            } else {
                                assert(out@[j].path@ == fs[i as int]);
                                assert(out@[j].contents@ == data_v);
                            }
                        }
                    }
                },
                Err(e) => {
                    proof {
                        fs.lemma_filter_contains(pred, i as int);
                        let k = choose|k: int|
                            0 <= k < included.len() && included[k] == fs[i as int];
                        assert(!(fetcher@.caches.contains_key(template_name@)
                            && fetcher@.caches[template_name@].files.contains_key(included[k])));
                    }
                    return Err(e);
                },
            }
        }
        i += 1;
    }
    proof {
        assert(fs.take(fs.len() as int) =~= fs);
        assert(copied_paths(out@) == included);
        assert(copied_paths(out@).len() == out@.len());
        assert(included.len() == out@.len());
        assert forall|k: int|
            0 <= k < included.len() implies (fetcher@.caches.contains_key(template_name@)
            && fetcher@.caches[template_name@].files.contains_key(#[trigger] included[k])) by {
            assert(included[k] == copied_paths(out@)[k]);
            assert(copied_paths(out@)[k] == out@[k].path@);
        }
        assert forall|j: int|
            0 <= j < out@.len() implies (#[trigger] out@[j]).contents@
            == fetcher@.caches[template_name@].files[out@[j].path@] by {
        }
    }
    Ok(out)
}

/// The copy engine is deterministic: two runs against the same cached
/// package, file list, selection and rules produce the same paths in the
/// same order, with the same contents.
pub proof fn lemma_copy_template_deterministic(
    r1: Seq<CopiedFile>,
    r2: Seq<CopiedFile>,
    cache: CacheModel,
    files: Seq<Seq<char>>,
    selected: Seq<Language>,
    lf: LfModel,
)
    requires
        copied_paths(r1) == included_files_spec(files, selected, lf),
        copied_paths(r2) == included_files_spec(files, selected, lf),
        forall|j: int| 0 <= j < r1.len() ==> (#[trigger] r1[j]).contents@ == cache.files[r1[j].path@],
        forall|j: int| 0 <= j < r2.len() ==> (#[trigger] r2[j]).contents@ == cache.files[r2[j].path@],
    ensures
        copied_paths(r1) == copied_paths(r2),
        r1.len() == r2.len(),
        forall|j: int|
            0 <= j < r1.len() ==> (#[trigger] r1[j]).path@ == r2[j].path@ && r1[j].contents@
                == r2[j].contents@,
{
    assert(r1.len() == copied_paths(r1).len());
    assert(r2.len() == copied_paths(r2).len());
    assert forall|j: int| 0 <= j < r1.len() implies (#[trigger] r1[j]).path@ == r2[j].path@
        && r1[j].contents@ == r2[j].contents@ by {
        assert(copied_paths(r1)[j] == r1[j].path@);
        assert(copied_paths(r2)[j] == r2[j].path@);
    }
}

/// A file whose bucket is `None` is excluded whatever languages are
/// selected: unmatched files are excluded by default.
pub proof fn lemma_unmatched_file_excluded(path: Seq<char>, selected: Seq<Language>, lf: LfModel)
    requires
        lf.bucket_for(path) is None,
    ensures
        !should_include_spec(path, selected, lf),
{
}

/// A file of the node bucket ships exactly when TypeScript or JavaScript is
/// selected.
pub proof fn lemma_node_bucket_needs_js_or_ts(
    path: Seq<char>,
    selected: Seq<Language>,
    lf: LfModel,
)
    requires
        lf.bucket_for(path) == Some(FileLanguage::Node),
    ensures
        should_include_spec(path, selected, lf) <==> (selected.contains(Language::TypeScript)
            || selected.contains(Language::JavaScript)),
{
}

/// A file of the node bucket does not ship when only Python is selected.
pub proof fn lemma_node_bucket_not_python_only(path: Seq<char>, lf: LfModel)
    requires
        lf.bucket_for(path) == Some(FileLanguage::Node),
    ensures
        !should_include_spec(path, seq![Language::Python], lf),
{
    let sel = seq![Language::Python];
    assert(forall|i: int| 0 <= i < sel.len() ==> sel[i] == Language::Python);
}

} // verus!
