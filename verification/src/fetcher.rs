//! Template packaging, unpacking and caching: the single zip abstraction
//! behind which remote and local template sources look identical.
//!
//! Network and disk access live with the caller; this module holds every
//! decision around them: which URL to fetch, which files to read, how a
//! package is assembled from manifest text and file contents, how a fetched
//! package is unpacked into the per-template cache, and how cached manifests
//! and file bytes are served.

use vstd::prelude::*;
use vstd::string::*;

use crate::errors::TemplateError;
use crate::manifest::{patterns_view, ManifestModel, SharedFile, TemplateManifest};
use crate::text::{starts_with_spec, str_eq, str_starts_with};
use crate::ziparchive::{entry_names, zip_builder_entries, zip_entries, ZipBuilder};

verus! {

broadcast use vstd::string::group_string_axioms;

/// Where templates come from: a remote base URL or a local directory.
pub enum TemplateSource {
    Remote(String),
    Local(String),
}

/// Mathematical model of a template source.
pub enum SourceModel {
    Remote(Seq<char>),
    Local(Seq<char>),
}

impl View for TemplateSource {
    type V = SourceModel;

    open spec fn view(&self) -> SourceModel {
        match self {
            TemplateSource::Remote(u) => SourceModel::Remote(u@),
            TemplateSource::Local(p) => SourceModel::Local(p@),
        }
    }
}

/// Whether `url::Url::parse` accepts the text.
pub uninterp spec fn url_ok(s: Seq<char>) -> bool;

/// The URL obtained by appending one path segment to a base URL, keeping the
/// base's path and query intact; `None` when the base cannot be parsed or
/// cannot carry path segments.
pub uninterp spec fn url_append(base: Seq<char>, segment: Seq<char>) -> Option<Seq<char>>;

/// Relies on `url::Url::parse`: whether the text is a valid URL.
#[verifier::external_body]
fn url_is_valid(s: &str) -> (r: bool)
    ensures
        r == url_ok(s@),
{
    url::Url::parse(s).is_ok()
}

/// Relies on `url::Url::parse`, `Url::path_segments_mut` (with
/// `pop_if_empty` and `push`) and `Url::as_str`: appends exactly one path
/// segment to the base URL, preserving its query.
#[verifier::external_body]
fn append_url_segment(base: &str, segment: &str) -> (r: Option<String>)
    ensures
        match r {
            Some(u) => url_append(base@, segment@) == Some(u@),
            None => url_append(base@, segment@) is None,
        },
{
    let mut u = match url::Url::parse(base) {
        Ok(u) => u,
        Err(_) => return None,
    };
    match u.path_segments_mut() {
        Ok(mut segments) => {
            segments.pop_if_empty().push(segment);
        },
        Err(()) => return None,
    }
    Some(String::from(u))
}

impl TemplateSource {
    /// A remote source. Fails with a configuration error when the base URL
    /// cannot be parsed.
    pub fn remote(url: &str) -> (r: Result<TemplateSource, TemplateError>)
        ensures
            r is Ok <==> url_ok(url@),
            match r {
                Ok(s) => s@ == SourceModel::Remote(url@),
                Err(e) => e matches TemplateError::SourceConfig { url: u } && u@ == url@,
            },
    {
        if url_is_valid(url) {
            Ok(TemplateSource::Remote(url.to_owned()))
        } else {
            Err(TemplateError::SourceConfig { url: url.to_owned() })
        }
    }

    /// A local source wrapping a directory path, with no validation at
    /// construction.
    pub fn local(path: String) -> (r: TemplateSource)
        ensures
            r@ == SourceModel::Local(path@),
    {
        TemplateSource::Local(path)
    }

    /// The remote source of a product: the overriding URL when the
    /// environment supplied one, else the product's default URL. Fails with
    /// a configuration error when the chosen URL cannot be parsed.
    pub fn from_config(config: &crate::product::ProductConfig, env_url: Option<String>) -> (r:
        Result<TemplateSource, TemplateError>)
        ensures
            ({
                let chosen = match env_url {
                    Some(u) => u@,
                    None => config.default_template_url@,
                };
                &&& (r is Ok <==> url_ok(chosen))
                &&& match r {
                    Ok(s) => s@ == SourceModel::Remote(chosen),
                    Err(e) => e matches TemplateError::SourceConfig { url: u } && u@ == chosen,
                }
            }),
    {
        match env_url {
            Some(u) => TemplateSource::remote(u.as_str()),
            None => TemplateSource::remote(config.default_template_url),
        }
    }
}

/// Relies on `String::from_utf8`: succeeds exactly on valid UTF-8,
/// preserving the byte content.
#[verifier::external_body]
fn string_from_utf8(bytes: Vec<u8>) -> (r: Option<String>)
    ensures
        match r {
            Some(s) => vstd::utf8::valid_utf8(bytes@) && s@ == vstd::utf8::decode_utf8(bytes@),
            None => !vstd::utf8::valid_utf8(bytes@),
        },
{
    String::from_utf8(bytes).ok()
}

/// The name with a leading prefix removed, when it has one.
pub open spec fn strip_prefix_spec(name: Seq<char>, prefix: Seq<char>) -> Seq<char> {
    if starts_with_spec(name, prefix) {
        name.skip(prefix.len() as int)
    } else {
        name
    }
}

/// Whether an archive entry name denotes a directory: it ends with a slash
/// or a backslash.
pub open spec fn is_dir_name(name: Seq<char>) -> bool {
    name.len() > 0 && (name.last() == '/' || name.last() == '\\')
}

/// One cached file: a template-relative path and its raw contents.
pub struct FileEntry {
    pub path: String,
    pub data: Vec<u8>,
}

/// The extracted files of one template package, keyed by relative path.
/// A later entry for the same path replaces the earlier one.
pub struct FileMap {
    entries: Vec<FileEntry>,
}

/// The map an entry list denotes: entries applied in order, later wins.
pub open spec fn files_map_of(es: Seq<FileEntry>) -> Map<Seq<char>, Seq<u8>>
    decreases es.len(),
{
    if es.len() == 0 {
        Map::empty()
    } else {
        files_map_of(es.drop_last()).insert(es.last().path@, es.last().data@)
    }
}

impl View for FileMap {
    type V = Map<Seq<char>, Seq<u8>>;

    closed spec fn view(&self) -> Map<Seq<char>, Seq<u8>> {
        files_map_of(self.entries@)
    }
}

impl FileMap {
    /// An empty file map.
    pub fn new() -> (r: FileMap)
        ensures
            r@ == Map::<Seq<char>, Seq<u8>>::empty(),
    {
        let r = FileMap { entries: Vec::new() };
        proof {
            assert(r@ =~= Map::<Seq<char>, Seq<u8>>::empty());
        }
        r
    }

    /// Store contents under a path, replacing what was there.
    pub fn insert(&mut self, path: String, data: Vec<u8>)
        ensures
            final(self)@ == old(self)@.insert(path@, data@),
    {
        let ghost p = path@;
        let ghost d = data@;
        let ghost prev = self.entries@;
        self.entries.push(FileEntry { path, data });
        proof {
            assert(self.entries@.drop_last() =~= prev);
        }
    }

    /// The contents stored under a path.
    pub fn get(&self, path: &str) -> (r: Option<&Vec<u8>>)
        ensures
            match r {
                Some(d) => self@.contains_key(path@) && self@[path@] == d@,
                None => !self@.contains_key(path@),
            },
    {
        let mut i: usize = self.entries.len();
        proof {
            assert(self.entries@.take(i as int) =~= self.entries@);
        }
        while i > 0
            invariant
                i <= self.entries.len(),
                files_map_of(self.entries@).contains_key(path@) == files_map_of(
                    self.entries@.take(i as int),
                ).contains_key(path@),
                files_map_of(self.entries@).contains_key(path@) ==> files_map_of(
                    self.entries@.take(i as int),
                )[path@] == files_map_of(self.entries@)[path@],
            decreases i,
        {
            proof {
                assert(self.entries@.take(i as int).drop_last() =~= self.entries@.take(i - 1));
                assert(self.entries@.take(i as int).last() == self.entries@[i - 1]);
            }
            if str_eq(self.entries[i - 1].path.as_str(), path) {
                return Some(&self.entries[i - 1].data);
            }
            i -= 1;
        }
        proof {
            assert(self.entries@.take(0) =~= Seq::<FileEntry>::empty());
        }
        None
    }
}

/// One template's unpacked package: its parsed manifest and file contents.
pub struct TemplateCache {
    pub manifest: TemplateManifest,
    pub files: FileMap,
}

/// Mathematical model of a cached template package.
#[verifier::ext_equal]
pub struct CacheModel {
    pub manifest: ManifestModel,
    pub files: Map<Seq<char>, Seq<u8>>,
}

impl View for TemplateCache {
    type V = CacheModel;

    open spec fn view(&self) -> CacheModel {
        CacheModel { manifest: self.manifest@, files: self.files@ }
    }
}

/// One cache slot, keyed by template name.
struct CacheSlot {
    name: String,
    cache: TemplateCache,
}

/// The cache map an entry list denotes: later entries win.
spec fn caches_map_of(es: Seq<CacheSlot>) -> Map<Seq<char>, CacheModel>
    decreases es.len(),
{
    if es.len() == 0 {
        Map::empty()
    } else {
        caches_map_of(es.drop_last()).insert(es.last().name@, es.last().cache@)
    }
}

/// Serves template manifests and file bytes out of per-template caches,
/// populated once per template name from a packaged zip.
pub struct TemplateFetcher {
    source: TemplateSource,
    caches: Vec<CacheSlot>,
}

/// Mathematical model of a fetcher: its source and its cache contents.
#[verifier::ext_equal]
pub struct FetcherModel {
    pub source: SourceModel,
    pub caches: Map<Seq<char>, CacheModel>,
}

impl View for TemplateFetcher {
    type V = FetcherModel;

    closed spec fn view(&self) -> FetcherModel {
        FetcherModel { source: self.source@, caches: caches_map_of(self.caches@) }
    }
}

impl TemplateFetcher {
    /// A fetcher over a source, with nothing cached yet.
    pub fn new(source: TemplateSource) -> (r: TemplateFetcher)
        ensures
            r@.source == source@,
            r@.caches == Map::<Seq<char>, CacheModel>::empty(),
    {
        let r = TemplateFetcher { source, caches: Vec::new() };
        proof {
            assert(r@.caches =~= Map::<Seq<char>, CacheModel>::empty());
        }
        r
    }

    /// A fetcher over a local template directory.
    pub fn from_local(path: String) -> (r: TemplateFetcher)
        ensures
            r@.source == SourceModel::Local(path@),
            r@.caches == Map::<Seq<char>, CacheModel>::empty(),
    {
        TemplateFetcher::new(TemplateSource::local(path))
    }

    /// A fetcher over a product's remote source (see
    /// [`TemplateSource::from_config`]).
    pub fn from_config(config: &crate::product::ProductConfig, env_url: Option<String>) -> (r:
        Result<TemplateFetcher, TemplateError>)
        ensures
            ({
                let chosen = match env_url {
                    Some(u) => u@,
                    None => config.default_template_url@,
                };
                &&& (r is Ok <==> url_ok(chosen))
                &&& match r {
                    Ok(f) => f@.source == SourceModel::Remote(chosen) && f@.caches == Map::<
                        Seq<char>,
                        CacheModel,
                    >::empty(),
                    Err(e) => e matches TemplateError::SourceConfig { url: u } && u@ == chosen,
                }
            }),
    {
        match TemplateSource::from_config(config, env_url) {
            Ok(source) => Ok(TemplateFetcher::new(source)),
            Err(e) => Err(e),
        }
    }

    /// The template source.
    pub fn source(&self) -> (r: &TemplateSource)
        ensures
            r@ == self@.source,
    {
        &self.source
    }

    /// Whether a template's package is cached.
    pub fn is_cached(&self, template_name: &str) -> (r: bool)
        ensures
            r == self@.caches.contains_key(template_name@),
    {
        let mut i: usize = self.caches.len();
        proof {
            assert(self.caches@.take(i as int) =~= self.caches@);
        }
        while i > 0
            invariant
                i <= self.caches.len(),
                caches_map_of(self.caches@).contains_key(template_name@) == caches_map_of(
                    self.caches@.take(i as int),
                ).contains_key(template_name@),
            decreases i,
        {
            proof {
                assert(self.caches@.take(i as int).drop_last() =~= self.caches@.take(i - 1));
                assert(self.caches@.take(i as int).last() == self.caches@[i - 1]);
            }
            if str_eq(self.caches[i - 1].name.as_str(), template_name) {
                return true;
            }
            i -= 1;
        }
        proof {
            assert(self.caches@.take(0) =~= Seq::<CacheSlot>::empty());
        }
        false
    }

    /// The cached package of a template.
    fn lookup(&self, template_name: &str) -> (r: Option<&TemplateCache>)
        ensures
            match r {
                Some(c) => self@.caches.contains_key(template_name@) && self@.caches[template_name@]
                    == c@,
                None => !self@.caches.contains_key(template_name@),
            },
    {
        let mut i: usize = self.caches.len();
        proof {
            assert(self.caches@.take(i as int) =~= self.caches@);
        }
        while i > 0
            invariant
                i <= self.caches.len(),
                caches_map_of(self.caches@).contains_key(template_name@) == caches_map_of(
                    self.caches@.take(i as int),
                ).contains_key(template_name@),
                caches_map_of(self.caches@).contains_key(template_name@) ==> caches_map_of(
                    self.caches@.take(i as int),
                )[template_name@] == caches_map_of(self.caches@)[template_name@],
            decreases i,
        {
            proof {
                assert(self.caches@.take(i as int).drop_last() =~= self.caches@.take(i - 1));
                assert(self.caches@.take(i as int).last() == self.caches@[i - 1]);
            }
            if str_eq(self.caches[i - 1].name.as_str(), template_name) {
                return Some(&self.caches[i - 1].cache);
            }
            i -= 1;
        }
        proof {
            assert(self.caches@.take(0) =~= Seq::<CacheSlot>::empty());
        }
        None
    }

    /// Store a template's unpacked package in the cache.
    fn store(&mut self, template_name: &str, cache: TemplateCache)
        ensures
            final(self)@.source == old(self)@.source,
            final(self)@.caches == old(self)@.caches.insert(template_name@, cache@),
    {
        let ghost prev = self.caches@;
        let ghost c = cache@;
        self.caches.push(CacheSlot { name: template_name.to_owned(), cache });
        proof {
            assert(self.caches@.drop_last() =~= prev);
        }
    }

    /// The URL of the root manifest, for a remote source.
    pub fn root_manifest_url(&self) -> (r: Option<String>)
        ensures
            match self@.source {
                SourceModel::Remote(base) => match r {
                    Some(u) => url_append(base, "template.yaml"@) == Some(u@),
                    None => url_append(base, "template.yaml"@) is None,
                },
                SourceModel::Local(_) => r is None,
            },
    {
        match &self.source {
            TemplateSource::Remote(base) => append_url_segment(base.as_str(), "template.yaml"),
            TemplateSource::Local(_) => None,
        }
    }

    /// The URL of a template's packaged zip, for a remote source: the base
    /// URL with the single segment `<name>.zip` appended.
    pub fn template_zip_url(&self, template_name: &str) -> (r: Option<String>)
        ensures
            match self@.source {
                SourceModel::Remote(base) => match r {
                    Some(u) => url_append(base, template_name@ + ".zip"@) == Some(u@),
                    None => url_append(base, template_name@ + ".zip"@) is None,
                },
                SourceModel::Local(_) => r is None,
            },
    {
        match &self.source {
            TemplateSource::Remote(base) => {
                let segment = template_name.to_owned().concat(".zip");
                append_url_segment(base.as_str(), segment.as_str())
            },
            TemplateSource::Local(_) => None,
        }
    }

    /// The cached manifest of a template; an error when the template's
    /// package is not cached.
    pub fn fetch_template_manifest(&self, template_name: &str) -> (r: Result<
        TemplateManifest,
        TemplateError,
    >)
        ensures
            r is Ok <==> self@.caches.contains_key(template_name@),
            match r {
                Ok(m) => m@ == self@.caches[template_name@].manifest,
                Err(e) => e matches TemplateError::TemplateNotFound { name } && name@
                    == template_name@,
            },
    {
        match self.lookup(template_name) {
            Some(cache) => Ok(cache.manifest.duplicate()),
            None => Err(TemplateError::TemplateNotFound { name: template_name.to_owned() }),
        }
    }

    /// The cached raw contents of one file of a template. Fails with a
    /// not-found error when the template is not cached, and with a distinct
    /// file-not-found error when the template is cached but lists no such
    /// file.
    pub fn fetch_file_bytes(&self, template_name: &str, file_path: &str) -> (r: Result<
        Vec<u8>,
        TemplateError,
    >)
        ensures
            r is Ok <==> (self@.caches.contains_key(template_name@)
                && self@.caches[template_name@].files.contains_key(file_path@)),
            match r {
                Ok(data) => data@ == self@.caches[template_name@].files[file_path@],
                Err(e) => match e {
                    TemplateError::TemplateNotFound { name } => name@ == template_name@
                        && !self@.caches.contains_key(template_name@),
                    TemplateError::FileNotFound { template, path } => template@ == template_name@
                        && path@ == file_path@ && self@.caches.contains_key(template_name@),
                    _ => false,
                },
            },
    {
        match self.lookup(template_name) {
            Some(cache) => match cache.files.get(file_path) {
                Some(data) => Ok(vstd::slice::slice_to_vec(data.as_slice())),
                None => Err(
                    TemplateError::FileNotFound {
                        template: template_name.to_owned(),
                        path: file_path.to_owned(),
                    },
                ),
            },
            None => Err(TemplateError::TemplateNotFound { name: template_name.to_owned() }),
        }
    }

    /// The cached contents of one file of a template, as text. Fails like
    /// [`TemplateFetcher::fetch_file_bytes`], and additionally with a parse
    /// error naming the path when the contents are not valid UTF-8.
    pub fn fetch_file(&self, template_name: &str, file_path: &str) -> (r: Result<
        String,
        TemplateError,
    >)
        ensures
            r is Ok <==> (self@.caches.contains_key(template_name@)
                && self@.caches[template_name@].files.contains_key(file_path@)
                && vstd::utf8::valid_utf8(self@.caches[template_name@].files[file_path@])),
            match r {
                Ok(s) => s@ == vstd::utf8::decode_utf8(
                    self@.caches[template_name@].files[file_path@],
                ),
                Err(e) => match e {
                    TemplateError::TemplateNotFound { name } => name@ == template_name@
                        && !self@.caches.contains_key(template_name@),
                    TemplateError::FileNotFound { template, path } => template@ == template_name@
                        && path@ == file_path@ && self@.caches.contains_key(template_name@),
                    TemplateError::Parse { context } => context@ == file_path@
                        && self@.caches.contains_key(template_name@)
                        && self@.caches[template_name@].files.contains_key(file_path@)
                        && !vstd::utf8::valid_utf8(
                        self@.caches[template_name@].files[file_path@],
                    ),
                    _ => false,
                },
            },
    {
        match self.fetch_file_bytes(template_name, file_path) {
            Ok(bytes) => match string_from_utf8(bytes) {
                Some(s) => Ok(s),
                None => Err(TemplateError::Parse { context: file_path.to_owned() }),
            },
            Err(e) => Err(e),
        }
    }
}

/// The file map the entries of a package denote: every non-directory entry,
/// its name stripped of the leading `<template>/` prefix, applied in order
/// with later entries winning.
pub open spec fn extracted_files(es: Seq<(Seq<char>, Seq<u8>)>, prefix: Seq<char>) -> Map<
    Seq<char>,
    Seq<u8>,
>
    decreases es.len(),
{
    if es.len() == 0 {
        Map::empty()
    } else {
        let rest = extracted_files(es.drop_last(), prefix);
        if is_dir_name(es.last().0) {
            rest
        } else {
            rest.insert(strip_prefix_spec(es.last().0, prefix), es.last().1)
        }
    }
}

/// The contents of the last manifest entry of a package: the last
/// non-directory entry whose stripped name is `template.yaml`.
pub open spec fn last_manifest_bytes(es: Seq<(Seq<char>, Seq<u8>)>, prefix: Seq<char>) -> Option<
    Seq<u8>,
>
    decreases es.len(),
{
    if es.len() == 0 {
        None
    } else if !is_dir_name(es.last().0) && strip_prefix_spec(es.last().0, prefix)
        == "template.yaml"@ {
        Some(es.last().1)
    } else {
        last_manifest_bytes(es.drop_last(), prefix)
    }
}

/// Bytes that decode as UTF-8 text matching the per-template manifest schema.
pub open spec fn manifest_bytes_ok(b: Seq<u8>) -> bool {
    vstd::utf8::valid_utf8(b) && crate::schema::template_manifest_of_text(
        vstd::utf8::decode_utf8(b),
    ) is Some
}

/// Every manifest entry of the package parses.
pub open spec fn manifests_ok(es: Seq<(Seq<char>, Seq<u8>)>, prefix: Seq<char>) -> bool {
    forall|i: int|
        0 <= i < es.len() && !is_dir_name((#[trigger] es[i]).0) && strip_prefix_spec(
            es[i].0,
            prefix,
        ) == "template.yaml"@ ==> manifest_bytes_ok(es[i].1)
}

/// The cache entry a packaged zip denotes: its extracted file map and the
/// manifest parsed from its (last) `template.yaml` entry; `None` when the
/// bytes are not a readable archive, when a manifest entry does not parse,
/// or when the package holds no manifest.
pub open spec fn extracted_cache_model(bytes: Seq<u8>, name: Seq<char>) -> Option<CacheModel> {
    match zip_entries(bytes) {
        Some(es) => {
            let prefix = name + "/"@;
            if manifests_ok(es, prefix) && last_manifest_bytes(es, prefix) is Some
                && manifest_bytes_ok(last_manifest_bytes(es, prefix).unwrap()) {
                Some(
                    CacheModel {
                        manifest: crate::schema::template_manifest_of_text(
                            vstd::utf8::decode_utf8(last_manifest_bytes(es, prefix).unwrap()),
                        ).unwrap(),
                        files: extracted_files(es, prefix),
                    },
                )
            } else {
                None
            }
        },
        None => None,
    }
}

/// Unpack a packaged template zip into a cache entry: every non-directory
/// entry is stored under its name stripped of the leading `<name>/` prefix,
/// and the `template.yaml` entry is parsed as the template's manifest.
/// Succeeds exactly when the package denotes a cache entry (see
/// [`extracted_cache_model`]): a package that is not a readable archive,
/// holds a manifest entry that does not parse, or holds no manifest at all
/// is malformed.
pub fn extract_zip_to_cache(zip_bytes: Vec<u8>, template_name: &str) -> (r: Result<
    TemplateCache,
    TemplateError,
>)
    ensures
        r is Ok <==> extracted_cache_model(zip_bytes@, template_name@) is Some,
        match r {
            Ok(cache) => extracted_cache_model(zip_bytes@, template_name@) == Some(cache@),
            Err(e) => e matches TemplateError::Parse { context } && context@ == template_name@,
        },
{
    let entries = match crate::ziparchive::unpack_zip(zip_bytes) {
        Ok(v) => v,
        Err(_) => {
            return Err(TemplateError::Parse { context: template_name.to_owned() });
        },
    };
    let ghost es = crate::ziparchive::read_entries_view(entries@);
    let prefix = template_name.to_owned().concat("/");
    let mut files = FileMap::new();
    let mut manifest: Option<TemplateManifest> = None;
    proof {
        assert(es.take(0) =~= Seq::<(Seq<char>, Seq<u8>)>::empty());
        assert(files@ =~= extracted_files(es.take(0), prefix@));
    }
    let mut i: usize = 0;
    while i < entries.len()
        invariant
            i <= entries.len(),
            es == crate::ziparchive::read_entries_view(entries@),
            es.len() == entries@.len(),
            zip_entries(zip_bytes@) == Some(es),
            prefix@ == template_name@ + "/"@,
            files@ == extracted_files(es.take(i as int), prefix@),
            manifests_ok(es.take(i as int), prefix@),
            match manifest {
                Some(m) => last_manifest_bytes(es.take(i as int), prefix@) is Some
                    && manifest_bytes_ok(last_manifest_bytes(es.take(i as int), prefix@).unwrap())
                    && Some(m@) == crate::schema::template_manifest_of_text(
                    vstd::utf8::decode_utf8(
                        last_manifest_bytes(es.take(i as int), prefix@).unwrap(),
                    ),
                ),
                None => last_manifest_bytes(es.take(i as int), prefix@) is None,
            },
        decreases entries.len() - i,
    {
        proof {
            assert(es[i as int] == (entries@[i as int].name@, entries@[i as int].data@));
            assert(es.take(i + 1).drop_last() =~= es.take(i as int));
            assert(es.take(i + 1).last() == es[i as int]);
        }
        let ename: &String = &entries[i].name;
        let data = vstd::slice::slice_to_vec(entries[i].data.as_slice());
        let elen = ename.as_str().unicode_len();
        let mut entry_is_dir = false;
        if elen > 0 {
            let c = ename.as_str().get_char(elen - 1);
            entry_is_dir = c == '/' || c == '\\';
        }
        if !entry_is_dir {
            let rel: String = if str_starts_with(ename.as_str(), prefix.as_str()) {
                let plen = prefix.as_str().unicode_len();
                ename.as_str().substring_char(plen, elen).to_owned()
            } else {
                ename.clone()
            };
            if str_eq(rel.as_str(), "template.yaml") {
                let data_copy = vstd::slice::slice_to_vec(data.as_slice());
                let text = match string_from_utf8(data_copy) {
                    Some(t) => t,
                    None => {
                        proof {
                            assert(!manifests_ok(es, prefix@));
                        }
                        return Err(TemplateError::Parse { context: template_name.to_owned() });
                    },
                };
                match crate::schema::parse_template_manifest(text.as_str(), template_name) {
                    Ok(m) => {
                        manifest = Some(m);
                    },
                    Err(e) => {
                        proof {
                            assert(!manifests_ok(es, prefix@));
                        }
                        return Err(e);
                    },
                }
            }
            files.insert(rel, data);
        }
        i += 1;
    }
    proof {
        assert(es.take(entries@.len() as int) =~= es);
    }
    match manifest {
        Some(m) => Ok(TemplateCache { manifest: m, files }),
        None => Err(TemplateError::Parse { context: template_name.to_owned() }),
    }
}

impl TemplateFetcher {
    /// Unpack a template's packaged zip into the cache. A no-op when the
    /// template is already cached; otherwise the package is extracted and
    /// stored under the template's name.
    pub fn cache_template_zip(&mut self, template_name: &str, zip_bytes: Vec<u8>) -> (r: Result<
        (),
        TemplateError,
    >)
        ensures
            final(self)@.source == old(self)@.source,
            old(self)@.caches.contains_key(template_name@) ==> (r is Ok
                && final(self)@ == old(self)@),
            !old(self)@.caches.contains_key(template_name@) ==> (r is Ok <==> extracted_cache_model(
                zip_bytes@,
                template_name@,
            ) is Some),
            !old(self)@.caches.contains_key(template_name@) ==> match r {
                Ok(_) => extracted_cache_model(zip_bytes@, template_name@) is Some
                    && final(self)@.caches == old(self)@.caches.insert(
                    template_name@,
                    extracted_cache_model(zip_bytes@, template_name@).unwrap(),
                ),
                Err(e) => final(self)@ == old(self)@ && (e matches TemplateError::Parse {
                    context,
                } && context@ == template_name@),
            },
    {
        if self.is_cached(template_name) {
            return Ok(());
        }
        match extract_zip_to_cache(zip_bytes, template_name) {
            Ok(cache) => {
                self.store(template_name, cache);
                Ok(())
            },
            Err(e) => Err(e),
        }
    }
}

/// The views of a shared-file list.
pub open spec fn shared_view(s: Seq<SharedFile>) -> Seq<crate::manifest::SharedFileModel> {
    s.map_values(|sf: SharedFile| sf@)
}

/// The effective destinations of a shared-file list.
pub open spec fn dests_of(shared: Seq<crate::manifest::SharedFileModel>) -> Seq<Seq<char>> {
    shared.map_values(|s: crate::manifest::SharedFileModel| s.destination())
}

/// The file list extended, in order, by each destination not already
/// present.
pub open spec fn append_missing(files: Seq<Seq<char>>, dests: Seq<Seq<char>>) -> Seq<Seq<char>>
    decreases dests.len(),
{
    if dests.len() == 0 {
        files
    } else {
        let rest = append_missing(files, dests.drop_last());
        if rest.contains(dests.last()) {
            rest
        } else {
            rest.push(dests.last())
        }
    }
}

/// The files of the list that are not shared-file destinations.
pub open spec fn non_shared_files(files: Seq<Seq<char>>, dests: Seq<Seq<char>>) -> Seq<Seq<char>> {
    files.filter(|p: Seq<char>| !dests.contains(p))
}

/// The views of optional byte contents.
pub open spec fn bytes_opt_view(s: Seq<Option<Vec<u8>>>) -> Seq<Option<Seq<u8>>> {
    s.map_values(
        |o: Option<Vec<u8>>|
            match o {
                Some(v) => Some(v@),
                None => None,
            },
    )
}

/// The package entries of a read plan: one entry per present content, named
/// by the prefixed path, in order; missing contents are skipped.
pub open spec fn present_entries(
    names: Seq<Seq<char>>,
    contents: Seq<Option<Seq<u8>>>,
    prefix: Seq<char>,
) -> Seq<(Seq<char>, Seq<u8>)>
    decreases names.len(),
{
    if names.len() == 0 {
        Seq::empty()
    } else {
        let rest = present_entries(names.drop_last(), contents.drop_last(), prefix);
        match contents.last() {
            Some(b) => rest.push((prefix + names.last(), b)),
            None => rest,
        }
    }
}

/// The packaged entries a whole local build denotes: the updated manifest,
/// serialized, under `<name>/template.yaml`, then each present shared file
/// and each present manifest file under its prefixed path.
pub open spec fn planned_zip_entries(
    template_name: Seq<char>,
    m: ManifestModel,
    dests: Seq<Seq<char>>,
    shared: Seq<Option<Seq<u8>>>,
    reads: Seq<Seq<char>>,
    files: Seq<Option<Seq<u8>>>,
) -> Seq<(Seq<char>, Seq<u8>)> {
    seq![
        (
            template_name + "/template.yaml"@,
            vstd::utf8::encode_utf8(
                crate::yaml::yaml_text(crate::schema::manifest_yaml_model(m)),
            ),
        ),
    ] + present_entries(dests, shared, template_name + "/"@) + present_entries(
        reads,
        files,
        template_name + "/"@,
    )
}

/// Entries the packer is owed to accept: pairwise distinct names, each
/// name's UTF-8 encoding within the format's 16-bit length field, and each
/// entry's contents at most `0xFF00_0000` bytes — clear of the format's
/// 4 GiB per-entry field by far more than the worst-case expansion deflate
/// adds to incompressible input.
pub open spec fn zip_entries_ok(es: Seq<(Seq<char>, Seq<u8>)>) -> bool {
    &&& forall|i: int, j: int|
        0 <= i < j < es.len() ==> (#[trigger] es[i]).0 != (#[trigger] es[j]).0
    &&& forall|i: int|
        0 <= i < es.len() ==> vstd::utf8::encode_utf8((#[trigger] es[i]).0).len() <= 65535
    &&& forall|i: int| 0 <= i < es.len() ==> (#[trigger] es[i]).1.len() <= 0xFF00_0000
}

/// The packaged entries of a prefix of a read plan are a prefix of the
/// whole plan's packaged entries.
proof fn lemma_present_entries_prefix(
    ns: Seq<Seq<char>>,
    cs: Seq<Option<Seq<u8>>>,
    p: Seq<char>,
    i: int,
)
    requires
        0 <= i <= ns.len(),
        ns.len() == cs.len(),
    ensures
        present_entries(ns.take(i), cs.take(i), p).len() <= present_entries(ns, cs, p).len(),
        present_entries(ns.take(i), cs.take(i), p) == present_entries(ns, cs, p).take(
            present_entries(ns.take(i), cs.take(i), p).len() as int,
        ),
    decreases ns.len() - i,
{
    if i == ns.len() {
        assert(ns.take(i) =~= ns);
        assert(cs.take(i) =~= cs);
        assert(present_entries(ns, cs, p).take(present_entries(ns, cs, p).len() as int)
            =~= present_entries(ns, cs, p));
    } else {
        lemma_present_entries_prefix(ns, cs, p, i + 1);
        assert(ns.take(i + 1).drop_last() =~= ns.take(i));
        assert(cs.take(i + 1).drop_last() =~= cs.take(i));
        assert(ns.take(i + 1).last() == ns[i]);
        assert(cs.take(i + 1).last() == cs[i]);
        let short = present_entries(ns.take(i), cs.take(i), p);
        let step = present_entries(ns.take(i + 1), cs.take(i + 1), p);
        let full = present_entries(ns, cs, p);
        assert(step == full.take(step.len() as int));
        assert(short =~= full.take(step.len() as int).take(short.len() as int));
        assert(full.take(step.len() as int).take(short.len() as int) =~= full.take(
            short.len() as int,
        ));
    }
}

/// Whether the list holds the string.
pub fn contains_string(v: &Vec<String>, s: &str) -> (r: bool)
    ensures
        r == patterns_view(v@).contains(s@),
{
    let mut i: usize = 0;
    while i < v.len()
        invariant
            i <= v.len(),
            forall|j: int| 0 <= j < i ==> patterns_view(v@)[j] != s@,
        decreases v.len() - i,
    {
        proof {
            assert(patterns_view(v@)[i as int] == v@[i as int]@);
        }
        if str_eq(v[i].as_str(), s) {
            proof {
                assert(patterns_view(v@)[i as int] == s@);
            }
            return true;
        }
        i += 1;
    }
    proof {
        if patterns_view(v@).contains(s@) {
            let j = choose|j: int| 0 <= j < patterns_view(v@).len() && patterns_view(v@)[j] == s@;
            assert(patterns_view(v@)[j] != s@);
        }
    }
    false
}

/// What to read from disk to package a local template, and the manifest the
/// package will carry.
pub struct LocalZipPlan {
    /// The manifest to bake into the package: the parsed manifest with every
    /// shared-file destination appended to `files` (so language filtering
    /// sees them).
    pub manifest: TemplateManifest,
    /// Shared-file source paths, relative to the templates directory.
    pub shared_sources: Vec<String>,
    /// Shared-file destination paths inside the package.
    pub shared_dests: Vec<String>,
    /// The manifest's own files (shared destinations excluded), relative to
    /// the template's directory.
    pub file_reads: Vec<String>,
}

/// Plan the packaging of a local template from its manifest text and the
/// root manifest's shared files: parse the manifest, extend its file list
/// with the shared destinations, and list what must be read from disk.
pub fn plan_local_zip(
    manifest_text: &str,
    template_name: &str,
    shared_files: &Vec<SharedFile>,
) -> (r: Result<LocalZipPlan, TemplateError>)
    ensures
        r is Ok <==> crate::schema::template_manifest_of_text(manifest_text@) is Some,
        match r {
            Ok(plan) => ({
                let m = crate::schema::template_manifest_of_text(manifest_text@).unwrap();
                let dests = dests_of(shared_view(shared_files@));
                &&& plan.manifest@ == (ManifestModel {
                    files: append_missing(m.files, dests),
                    ..m
                })
                &&& patterns_view(plan.shared_sources@) == shared_view(shared_files@).map_values(
                    |s: crate::manifest::SharedFileModel| s.source,
                )
                &&& patterns_view(plan.shared_dests@) == dests
                &&& patterns_view(plan.file_reads@) == non_shared_files(m.files, dests)
            }),
            Err(e) => e matches TemplateError::Parse { context } && context@ == template_name@,
        },
{
    let mut manifest = match crate::schema::parse_template_manifest(manifest_text, template_name) {
        Ok(m) => m,
        Err(e) => {
            return Err(e);
        },
    };
    let ghost m0 = manifest@;
    let ghost shared_models = shared_view(shared_files@);
    let ghost dests_model = dests_of(shared_models);
    let ghost sources_model = shared_models.map_values(
        |s: crate::manifest::SharedFileModel| s.source,
    );

    let mut shared_sources: Vec<String> = Vec::new();
    let mut shared_dests: Vec<String> = Vec::new();
    let mut i: usize = 0;
    while i < shared_files.len()
        invariant
            i <= shared_files.len(),
            shared_models == shared_view(shared_files@),
            dests_model == dests_of(shared_models),
            sources_model == shared_models.map_values(
                |s: crate::manifest::SharedFileModel| s.source,
            ),
            shared_models.len() == shared_files@.len(),
            dests_model.len() == shared_files@.len(),
            sources_model.len() == shared_files@.len(),
            patterns_view(shared_sources@) == sources_model.take(i as int),
            patterns_view(shared_dests@) == dests_model.take(i as int),
        decreases shared_files.len() - i,
    {
        proof {
            assert(patterns_view(shared_sources@).len() == i);
            assert(shared_sources@.len() == i);
            assert(patterns_view(shared_dests@).len() == i);
            assert(shared_dests@.len() == i);
        }
        shared_sources.push(shared_files[i].source.clone());
        shared_dests.push(shared_files[i].destination().to_owned());
        proof {
            assert(shared_models[i as int] == shared_files@[i as int]@);
            assert(sources_model[i as int] == shared_models[i as int].source);
            assert(dests_model[i as int] == shared_models[i as int].destination());
            assert(patterns_view(shared_sources@) =~= sources_model.take(i + 1));
            assert(patterns_view(shared_dests@) =~= dests_model.take(i + 1));
        }
        i += 1;
    }
    proof {
        assert(sources_model.take(shared_files@.len() as int) =~= sources_model);
        assert(dests_model.take(shared_files@.len() as int) =~= dests_model);
        assert(sources_model =~= shared_view(shared_files@).map_values(
            |s: crate::manifest::SharedFileModel| s.source,
        ));
    }

    // The plan's reads come from the manifest's own file list, before the
    // shared destinations are appended.
    let ghost read_pred = |p: Seq<char>| !dests_model.contains(p);
    let mut file_reads: Vec<String> = Vec::new();
    proof {
        crate::copier::lemma_filter_take_zero(m0.files, read_pred);
        assert(patterns_view(file_reads@) =~= Seq::<Seq<char>>::empty());
    }
    let mut i: usize = 0;
    while i < manifest.files.len()
        invariant
            i <= manifest.files.len(),
            manifest@ == m0,
            m0.files.len() == manifest.files@.len(),
            dests_model == dests_of(shared_view(shared_files@)),
            patterns_view(shared_dests@) == dests_model,
            read_pred == (|p: Seq<char>| !dests_model.contains(p)),
            patterns_view(file_reads@) == m0.files.take(i as int).filter(read_pred),
        decreases manifest.files.len() - i,
    {
        proof {
            assert(m0.files[i as int] == manifest.files@[i as int]@);
            crate::copier::lemma_filter_take_step(m0.files, read_pred, i as int);
        }
        if !contains_string(&shared_dests, manifest.files[i].as_str()) {
            file_reads.push(manifest.files[i].clone());
            proof {
                assert(patterns_view(file_reads@) =~= m0.files.take(i as int).filter(
                    read_pred,
                ).push(m0.files[i as int]));
            }
        }
        i += 1;
    }
    proof {
        assert(m0.files.take(m0.files.len() as int) =~= m0.files);
    }

    // Append each shared destination absent from the manifest's file list.
    let mut i: usize = 0;
    while i < shared_dests.len()
        invariant
            i <= shared_dests.len(),
            shared_dests@.len() == dests_model.len(),
            patterns_view(shared_dests@) == dests_model,
            patterns_view(manifest.files@) == append_missing(m0.files, dests_model.take(i as int)),
            manifest@ == (ManifestModel {
                files: append_missing(m0.files, dests_model.take(i as int)),
                ..m0
            }),
        decreases shared_dests.len() - i,
    {
        proof {
            assert(dests_model.take(i + 1).drop_last() =~= dests_model.take(i as int));
            assert(dests_model.take(i + 1).last() == dests_model[i as int]);
            assert(dests_model[i as int] == shared_dests@[i as int]@);
        }
        if !contains_string(&manifest.files, shared_dests[i].as_str()) {
            manifest.files.push(shared_dests[i].clone());
            proof {
                assert(patterns_view(manifest.files@) =~= append_missing(
                    m0.files,
                    dests_model.take(i as int),
                ).push(dests_model[i as int]));
            }
        }
        i += 1;
    }
    proof {
        assert(dests_model.take(dests_model.len() as int) =~= dests_model);
        assert(manifest@ =~= (ManifestModel { files: append_missing(m0.files, dests_model), ..m0 }));
    }

    Ok(LocalZipPlan { manifest, shared_sources, shared_dests, file_reads })
}

/// Assemble a local template's package from its plan and the contents read
/// from disk (`None` marks a file missing on disk, which is skipped rather
/// than failing the build). The package holds, in order: the updated
/// manifest as `<name>/template.yaml`, each present shared file under
/// `<name>/<destination>`, and each present manifest file under
/// `<name>/<path>`. The build is owed success whenever the planned entries
/// fit the archive format (distinct names within its limits, see
/// [`zip_entries_ok`]); only a format violation — such as two planned
/// entries under the same path — fails it.
pub fn build_local_zip(
    template_name: &str,
    plan: &LocalZipPlan,
    shared_contents: &Vec<Option<Vec<u8>>>,
    file_contents: &Vec<Option<Vec<u8>>>,
) -> (r: Result<Vec<u8>, TemplateError>)
    requires
        shared_contents@.len() == plan.shared_dests@.len(),
        file_contents@.len() == plan.file_reads@.len(),
    ensures
        r matches Ok(bytes) ==> zip_entries(bytes@) == Some(
            planned_zip_entries(
                template_name@,
                plan.manifest@,
                patterns_view(plan.shared_dests@),
                bytes_opt_view(shared_contents@),
                patterns_view(plan.file_reads@),
                bytes_opt_view(file_contents@),
            ),
        ),
        r is Ok ==> crate::schema::template_manifest_of_text(
            crate::yaml::yaml_text(crate::schema::manifest_yaml_model(plan.manifest@)),
        ) == Some(plan.manifest@),
        zip_entries_ok(
            planned_zip_entries(
                template_name@,
                plan.manifest@,
                patterns_view(plan.shared_dests@),
                bytes_opt_view(shared_contents@),
                patterns_view(plan.file_reads@),
                bytes_opt_view(file_contents@),
            ),
        ) ==> r is Ok,
        r matches Err(e) ==> (e matches TemplateError::Io { path } && path@ == template_name@),
{
    let ghost dests_v = patterns_view(plan.shared_dests@);
    let ghost shared_v = bytes_opt_view(shared_contents@);
    let ghost reads_v = patterns_view(plan.file_reads@);
    let ghost files_v = bytes_opt_view(file_contents@);
    let ghost prefix_v = template_name@ + "/"@;
    let ghost full = planned_zip_entries(
        template_name@,
        plan.manifest@,
        dests_v,
        shared_v,
        reads_v,
        files_v,
    );

    let mtext = match crate::schema::serialize_template_manifest(&plan.manifest) {
        Some(t) => t,
        None => {
            return Err(TemplateError::Io { path: template_name.to_owned() });
        },
    };
    let ghost base = seq![(template_name@ + "/template.yaml"@, vstd::utf8::encode_utf8(mtext@))];
    proof {
        assert(full =~= base + present_entries(dests_v, shared_v, prefix_v) + present_entries(
            reads_v,
            files_v,
            prefix_v,
        ));
    }

    let mut zb = ZipBuilder::new();
    let manifest_entry = template_name.to_owned().concat("/template.yaml");
    if zb.add_entry(manifest_entry.as_str(), mtext.as_str().as_bytes()).is_err() {
        proof {
            if zip_entries_ok(full) {
                assert(full[0] == (manifest_entry@, vstd::utf8::encode_utf8(mtext@)));
                assert(entry_names(Seq::<(Seq<char>, Seq<u8>)>::empty()).len() == 0);
                assert(vstd::utf8::encode_utf8(mtext@).len() <= 0xFF00_0000);
                assert(false);
            }
        }
        return Err(TemplateError::Io { path: template_name.to_owned() });
    }
    proof {
        assert(zip_builder_entries(zb) =~= base);
        assert(present_entries(dests_v.take(0), shared_v.take(0), prefix_v) =~= Seq::<
            (Seq<char>, Seq<u8>),
        >::empty());
        assert(zip_builder_entries(zb) =~= base + present_entries(
            dests_v.take(0),
            shared_v.take(0),
            prefix_v,
        ));
    }

    let mut i: usize = 0;
    while i < plan.shared_dests.len()
        invariant
            i <= plan.shared_dests.len(),
            shared_contents@.len() == plan.shared_dests@.len(),
            dests_v == patterns_view(plan.shared_dests@),
            shared_v == bytes_opt_view(shared_contents@),
            reads_v == patterns_view(plan.file_reads@),
            files_v == bytes_opt_view(file_contents@),
            dests_v.len() == plan.shared_dests@.len(),
            shared_v.len() == shared_contents@.len(),
            prefix_v == template_name@ + "/"@,
            base.len() == 1,
            full == planned_zip_entries(
                template_name@,
                plan.manifest@,
                dests_v,
                shared_v,
                reads_v,
                files_v,
            ),
            full == base + present_entries(dests_v, shared_v, prefix_v) + present_entries(
                reads_v,
                files_v,
                prefix_v,
            ),
            zip_builder_entries(zb) == base + present_entries(
                dests_v.take(i as int),
                shared_v.take(i as int),
                prefix_v,
            ),
        decreases plan.shared_dests.len() - i,
    {
        proof {
            assert(dests_v.take(i + 1).drop_last() =~= dests_v.take(i as int));
            assert(shared_v.take(i + 1).drop_last() =~= shared_v.take(i as int));
            assert(dests_v.take(i + 1).last() == plan.shared_dests@[i as int]@);
            assert(shared_v.take(i + 1).last() == shared_v[i as int]);
        }
        match &shared_contents[i] {
            Some(data) => {
                let ename = template_name.to_owned().concat("/").concat(
                    plan.shared_dests[i].as_str(),
                );
                if zb.add_entry(ename.as_str(), data.as_slice()).is_err() {
                    proof {
                        if zip_entries_ok(full) {
                            assert(shared_v[i as int] == Some(data@));
                            lemma_present_entries_prefix(dests_v, shared_v, prefix_v, i as int);
                            lemma_present_entries_prefix(dests_v, shared_v, prefix_v, i + 1);
                            let cur = present_entries(
                                dests_v.take(i as int),
                                shared_v.take(i as int),
                                prefix_v,
                            );
                            let nxt = present_entries(
                                dests_v.take(i + 1),
                                shared_v.take(i + 1),
                                prefix_v,
                            );
                            let pe1 = present_entries(dests_v, shared_v, prefix_v);
                            let k = 1 + cur.len() as int;
                            assert(nxt == cur.push((prefix_v + dests_v[i as int], data@)));
                            assert(ename@ == prefix_v + dests_v[i as int]);
                            assert(full[k] == pe1[cur.len() as int]);
                            assert(pe1[cur.len() as int] == nxt[cur.len() as int]);
                            assert(full[k] == (ename@, data@));
                            assert(zip_builder_entries(zb) =~= full.take(k));
                            if entry_names(zip_builder_entries(zb)).contains(ename@) {
                                let j = choose|j: int|
                                    0 <= j < entry_names(zip_builder_entries(zb)).len()
                                        && entry_names(zip_builder_entries(zb))[j] == ename@;
                                assert(zip_builder_entries(zb)[j] == full[j]);
                                assert(full[j].0 == full[k].0);
                                assert(false);
                            }
                            assert(vstd::utf8::encode_utf8(ename@).len() <= 65535);
                            assert(data@.len() <= 0xFF00_0000);
                            assert forall|t: int|
                                0 <= t < zip_builder_entries(zb).len() implies (
                            #[trigger] zip_builder_entries(zb)[t]).1.len() <= 0xFF00_0000 by {
                                assert(zip_builder_entries(zb)[t] == full[t]);
                            }
                            assert(false);
                        }
                    }
                    return Err(TemplateError::Io { path: template_name.to_owned() });
                }
                proof {
                    assert(zip_builder_entries(zb) =~= base + present_entries(
                        dests_v.take(i + 1),
                        shared_v.take(i + 1),
                        prefix_v,
                    ));
                }
            },
            None => {
                proof {
                    assert(shared_v[i as int] is None);
                }
            },
        }
        i += 1;
    }
    proof {
        assert(dests_v.take(dests_v.len() as int) =~= dests_v);
        assert(shared_v.take(shared_v.len() as int) =~= shared_v);
    }
    let ghost with_shared = base + present_entries(dests_v, shared_v, prefix_v);

    let mut i: usize = 0;
    proof {
        assert(present_entries(reads_v.take(0), files_v.take(0), prefix_v) =~= Seq::<
            (Seq<char>, Seq<u8>),
        >::empty());
        assert(zip_builder_entries(zb) =~= with_shared + present_entries(
            reads_v.take(0),
            files_v.take(0),
            prefix_v,
        ));
    }
    while i < plan.file_reads.len()
        invariant
            i <= plan.file_reads.len(),
            file_contents@.len() == plan.file_reads@.len(),
            reads_v == patterns_view(plan.file_reads@),
            files_v == bytes_opt_view(file_contents@),
            dests_v == patterns_view(plan.shared_dests@),
            shared_v == bytes_opt_view(shared_contents@),
            reads_v.len() == plan.file_reads@.len(),
            files_v.len() == file_contents@.len(),
            prefix_v == template_name@ + "/"@,
            base.len() == 1,
            with_shared == base + present_entries(dests_v, shared_v, prefix_v),
            full == planned_zip_entries(
                template_name@,
                plan.manifest@,
                dests_v,
                shared_v,
                reads_v,
                files_v,
            ),
            full == with_shared + present_entries(reads_v, files_v, prefix_v),
            zip_builder_entries(zb) == with_shared + present_entries(
                reads_v.take(i as int),
                files_v.take(i as int),
                prefix_v,
            ),
        decreases plan.file_reads.len() - i,
    {
        proof {
            assert(reads_v.take(i + 1).drop_last() =~= reads_v.take(i as int));
            assert(files_v.take(i + 1).drop_last() =~= files_v.take(i as int));
            assert(reads_v.take(i + 1).last() == plan.file_reads@[i as int]@);
            assert(files_v.take(i + 1).last() == files_v[i as int]);
        }
        match &file_contents[i] {
            Some(data) => {
                let ename = template_name.to_owned().concat("/").concat(
                    plan.file_reads[i].as_str(),
                );
                if zb.add_entry(ename.as_str(), data.as_slice()).is_err() {
                    proof {
                        if zip_entries_ok(full) {
                            assert(files_v[i as int] == Some(data@));
                            lemma_present_entries_prefix(reads_v, files_v, prefix_v, i as int);
                            lemma_present_entries_prefix(reads_v, files_v, prefix_v, i + 1);
                            let cur = present_entries(
                                reads_v.take(i as int),
                                files_v.take(i as int),
                                prefix_v,
                            );
                            let nxt = present_entries(
                                reads_v.take(i + 1),
                                files_v.take(i + 1),
                                prefix_v,
                            );
                            let pe2 = present_entries(reads_v, files_v, prefix_v);
                            let k = with_shared.len() + cur.len() as int;
                            assert(nxt == cur.push((prefix_v + reads_v[i as int], data@)));
                            assert(ename@ == prefix_v + reads_v[i as int]);
                            assert(full[k] == pe2[cur.len() as int]);
                            assert(pe2[cur.len() as int] == nxt[cur.len() as int]);
                            assert(full[k] == (ename@, data@));
                            assert(zip_builder_entries(zb) =~= full.take(k));
                            if entry_names(zip_builder_entries(zb)).contains(ename@) {
                                let j = choose|j: int|
                                    0 <= j < entry_names(zip_builder_entries(zb)).len()
                                        && entry_names(zip_builder_entries(zb))[j] == ename@;
                                assert(zip_builder_entries(zb)[j] == full[j]);
                                assert(full[j].0 == full[k].0);
                                assert(false);
                            }
                            assert(vstd::utf8::encode_utf8(ename@).len() <= 65535);
                            assert(data@.len() <= 0xFF00_0000);
                            assert forall|t: int|
                                0 <= t < zip_builder_entries(zb).len() implies (
                            #[trigger] zip_builder_entries(zb)[t]).1.len() <= 0xFF00_0000 by {
                                assert(zip_builder_entries(zb)[t] == full[t]);
                            }
                            assert(false);
                        }
                    }
                    return Err(TemplateError::Io { path: template_name.to_owned() });
                }
                proof {
                    assert(zip_builder_entries(zb) =~= with_shared + present_entries(
                        reads_v.take(i + 1),
                        files_v.take(i + 1),
                        prefix_v,
                    ));
                }
            },
            None => {
                proof {
                    assert(files_v[i as int] is None);
                }
            },
        }
        i += 1;
    }
    proof {
        assert(reads_v.take(reads_v.len() as int) =~= reads_v);
        assert(files_v.take(files_v.len() as int) =~= files_v);
    }

    let ghost final_entries = zip_builder_entries(zb);
    proof {
        assert(final_entries =~= full);
    }
    match zb.finish() {
        Ok(bytes) => Ok(bytes),
        Err(_) => {
            proof {
                if zip_entries_ok(full) {
                    assert forall|t: int|
                        0 <= t < final_entries.len() implies (#[trigger] final_entries[t]).1.len()
                        <= 0xFF00_0000 by {
                        assert(final_entries[t] == full[t]);
                    }
                    assert(false);
                }
            }
            Err(TemplateError::Io { path: template_name.to_owned() })
        },
    }
}

/// A path that can stand as a package entry under the template prefix: it
/// is nonempty, does not end like a directory name, and is not the
/// manifest's own name.
pub open spec fn valid_entry_path(p: Seq<char>) -> bool {
    &&& p.len() > 0
    &&& p.last() != '/'
    &&& p.last() != '\\'
    &&& p != "template.yaml"@
}

/// Stripping a prefix from its own concatenation gives the remainder back.
proof fn lemma_strip_prefix_of_concat(p: Seq<char>, x: Seq<char>)
    ensures
        strip_prefix_spec(p + x, p) == x,
{
    assert((p + x).take(p.len() as int) =~= p);
    assert((p + x).skip(p.len() as int) =~= x);
}

/// Every entry of a read plan's package entries is a file entry under the
/// prefix whose stripped name is its own (valid) path.
proof fn lemma_present_entries_are_plain(
    ns: Seq<Seq<char>>,
    cs: Seq<Option<Seq<u8>>>,
    p: Seq<char>,
)
    requires
        ns.len() == cs.len(),
        forall|i: int| 0 <= i < ns.len() ==> valid_entry_path(#[trigger] ns[i]),
    ensures
        forall|j: int|
            0 <= j < present_entries(ns, cs, p).len() ==> (!is_dir_name(
                (#[trigger] present_entries(ns, cs, p)[j]).0,
            ) && strip_prefix_spec(present_entries(ns, cs, p)[j].0, p) != "template.yaml"@),
    decreases ns.len(),
{
    if ns.len() > 0 {
        lemma_present_entries_are_plain(ns.drop_last(), cs.drop_last(), p);
        let pe = present_entries(ns, cs, p);
        let rest = present_entries(ns.drop_last(), cs.drop_last(), p);
        assert forall|j: int|
            0 <= j < pe.len() implies !is_dir_name((#[trigger] pe[j]).0) && strip_prefix_spec(
            pe[j].0,
            p,
        ) != "template.yaml"@ by {
            match cs.last() {
                Some(b) => {
                    if j < pe.len() - 1 {
                        assert(pe[j] == rest[j]);
                    } else {
                        let x = ns.last();
                        assert(pe[j] == (p + x, b));
                        assert((p + x).last() == x.last());
                        lemma_strip_prefix_of_concat(p, x);
                        proof_template_yaml_nonempty();
                    }
                },
                None => {
                    assert(pe[j] == rest[j]);
                },
            }
        }
    }
}

/// The manifest's file name is a nonempty literal.
proof fn proof_template_yaml_nonempty()
    ensures
        "template.yaml"@.len() == 13,
        "template.yaml"@.last() == 'l',
{
    reveal_strlit("template.yaml");
}

/// Appending entries that are not manifest entries leaves the last manifest
/// contents unchanged.
proof fn lemma_last_manifest_append_plain(
    es: Seq<(Seq<char>, Seq<u8>)>,
    extra: Seq<(Seq<char>, Seq<u8>)>,
    p: Seq<char>,
)
    requires
        forall|j: int|
            0 <= j < extra.len() ==> (!is_dir_name((#[trigger] extra[j]).0) && strip_prefix_spec(
                extra[j].0,
                p,
            ) != "template.yaml"@),
    ensures
        last_manifest_bytes(es + extra, p) == last_manifest_bytes(es, p),
    decreases extra.len(),
{
    if extra.len() == 0 {
        assert(es + extra =~= es);
    } else {
        let whole = es + extra;
        assert(whole.last() == extra.last());
        assert(whole.drop_last() =~= es + extra.drop_last());
        lemma_last_manifest_append_plain(es, extra.drop_last(), p);
    }
}

/// Packaging a local template and unpacking the package yields a cache
/// entry whose manifest equals the manifest that was baked in — the parsed
/// manifest with the shared-file destinations appended to its file list —
/// and whose file map holds the manifest under its own name.
pub proof fn lemma_local_zip_round_trip(
    bytes: Seq<u8>,
    name: Seq<char>,
    m: ManifestModel,
    mtext: Seq<char>,
    dests: Seq<Seq<char>>,
    shared: Seq<Option<Seq<u8>>>,
    reads: Seq<Seq<char>>,
    files: Seq<Option<Seq<u8>>>,
)
    requires
        crate::schema::template_manifest_of_text(mtext) == Some(m),
        zip_entries(bytes) == Some(
            seq![
                (name + "/template.yaml"@, vstd::utf8::encode_utf8(mtext)),
            ] + present_entries(dests, shared, name + "/"@) + present_entries(
                reads,
                files,
                name + "/"@,
            ),
        ),
        dests.len() == shared.len(),
        reads.len() == files.len(),
        forall|i: int| 0 <= i < dests.len() ==> valid_entry_path(#[trigger] dests[i]),
        forall|i: int| 0 <= i < reads.len() ==> valid_entry_path(#[trigger] reads[i]),
    ensures
        extracted_cache_model(bytes, name) is Some,
        extracted_cache_model(bytes, name).unwrap().manifest == m,
        extracted_cache_model(bytes, name).unwrap().files.contains_key("template.yaml"@),
        extracted_cache_model(bytes, name).unwrap().files["template.yaml"@]
            == vstd::utf8::encode_utf8(mtext),
{
    let p = name + "/"@;
    let base_name = name + "/template.yaml"@;
    let base = seq![(base_name, vstd::utf8::encode_utf8(mtext))];
    let pe1 = present_entries(dests, shared, p);
    let pe2 = present_entries(reads, files, p);
    let es = base + pe1 + pe2;

    proof_template_yaml_nonempty();
    reveal_strlit("/template.yaml");
    reveal_strlit("/");
    reveal_strlit("template.yaml");
    assert("/template.yaml"@ =~= "/"@ + "template.yaml"@);
    assert(base_name =~= p + "template.yaml"@);
    lemma_strip_prefix_of_concat(p, "template.yaml"@);
    assert(strip_prefix_spec(base_name, p) == "template.yaml"@);
    assert(base_name.last() == 'l');
    assert(!is_dir_name(base_name));

    // The base entry's contents decode back to the manifest text.
    vstd::utf8::encode_utf8_valid_utf8(mtext);
    vstd::utf8::encode_utf8_decode_utf8(mtext);
    assert(manifest_bytes_ok(vstd::utf8::encode_utf8(mtext)));

    // Every other entry is a plain file entry.
    lemma_present_entries_are_plain(dests, shared, p);
    lemma_present_entries_are_plain(reads, files, p);
    assert forall|j: int|
        0 <= j < (pe1 + pe2).len() implies (!is_dir_name((#[trigger] (pe1 + pe2)[j]).0)
        && strip_prefix_spec((pe1 + pe2)[j].0, p) != "template.yaml"@) by {
        if j < pe1.len() {
            assert((pe1 + pe2)[j] == pe1[j]);
        } else {
            assert((pe1 + pe2)[j] == pe2[j - pe1.len()]);
        }
    }

    // The last manifest entry is the baked-in one.
    assert(es =~= base + (pe1 + pe2));
    lemma_last_manifest_append_plain(base, pe1 + pe2, p);
    assert(base.drop_last() =~= Seq::<(Seq<char>, Seq<u8>)>::empty());
    assert(last_manifest_bytes(base, p) == Some(vstd::utf8::encode_utf8(mtext)));
    assert(last_manifest_bytes(es, p) == Some(vstd::utf8::encode_utf8(mtext)));

    // Every manifest entry of the package parses.
    assert forall|i: int|
        0 <= i < es.len() && !is_dir_name((#[trigger] es[i]).0) && strip_prefix_spec(es[i].0, p)
            == "template.yaml"@ implies manifest_bytes_ok(es[i].1) by {
        if i == 0 {
            assert(es[i] == base[0]);
        } else {
            assert(es[i] == (pe1 + pe2)[i - 1]);
        }
    }
    assert(manifests_ok(es, p));

    // The manifest lands in the file map under its own name.
    lemma_extracted_files_last_manifest(es, p);
}

/// Whenever a package holds a manifest entry, the extracted file map holds
/// its (last) contents under `template.yaml`.
proof fn lemma_extracted_files_last_manifest(es: Seq<(Seq<char>, Seq<u8>)>, p: Seq<char>)
    requires
        last_manifest_bytes(es, p) is Some,
    ensures
        extracted_files(es, p).contains_key("template.yaml"@),
        extracted_files(es, p)["template.yaml"@] == last_manifest_bytes(es, p).unwrap(),
    decreases es.len(),
{
    let e = es.last();
    if !is_dir_name(e.0) && strip_prefix_spec(e.0, p) == "template.yaml"@ {
    } else {
        lemma_extracted_files_last_manifest(es.drop_last(), p);
    }
}

/// A successfully built local package extracts: the bytes
/// [`build_local_zip`] returns denote a cache entry whose manifest is the
/// plan's (updated) manifest, so [`extract_zip_to_cache`] is guaranteed to
/// accept them. The preconditions are exactly what a successful build
/// ensures, plus well-formed planned paths.
pub proof fn lemma_built_zip_extracts(
    bytes: Seq<u8>,
    name: Seq<char>,
    m: ManifestModel,
    dests: Seq<Seq<char>>,
    shared: Seq<Option<Seq<u8>>>,
    reads: Seq<Seq<char>>,
    files: Seq<Option<Seq<u8>>>,
)
    requires
        crate::schema::template_manifest_of_text(
            crate::yaml::yaml_text(crate::schema::manifest_yaml_model(m)),
        ) == Some(m),
        zip_entries(bytes) == Some(planned_zip_entries(name, m, dests, shared, reads, files)),
        dests.len() == shared.len(),
        reads.len() == files.len(),
        forall|i: int| 0 <= i < dests.len() ==> valid_entry_path(#[trigger] dests[i]),
        forall|i: int| 0 <= i < reads.len() ==> valid_entry_path(#[trigger] reads[i]),
    ensures
        extracted_cache_model(bytes, name) is Some,
        extracted_cache_model(bytes, name).unwrap().manifest == m,
        extracted_cache_model(bytes, name).unwrap().files.contains_key("template.yaml"@),
{
    lemma_local_zip_round_trip(
        bytes,
        name,
        m,
        crate::yaml::yaml_text(crate::schema::manifest_yaml_model(m)),
        dests,
        shared,
        reads,
        files,
    );
}

} // verus!
