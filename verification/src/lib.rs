//! Template scaffolding core: manifest model, template packaging and caching,
//! language-filtered file copying, and version compatibility checking.
//!
//! The library is organised leaf-first:
//! - [`text`] holds verified string primitives: prefix, suffix and exact
//!   matching, ASCII case-insensitive comparison, base-name extraction.
//! - [`manifest`] holds the manifest data model and the pattern rules that
//!   associate files with language buckets.
//! - [`yaml`] models YAML documents as plain data behind the outside parser.
//! - [`schema`] maps YAML documents to and from the manifest types.
//! - [`ziparchive`] packs and unpacks in-memory zip archives.
//! - [`fetcher`] plans, builds, unpacks and caches template packages.
//! - [`copier`] decides, per file, whether it ships in a generated project.
//! - [`version`] compares semantic versions for compatibility warnings.
//! - [`runtime`], [`tool`], [`product`], [`screens`] hold the language
//!   enumeration, runtime-report decisions, tool and product identities, and
//!   the interactive screens' state.
//! - [`errors`] holds the error kinds of the whole pipeline.

pub mod copier;
pub mod errors;
pub mod fetcher;
pub mod manifest;
pub mod product;
pub mod schema;
pub mod screens;
pub mod runtime;
pub mod text;
pub mod tool;
pub mod version;
pub mod yaml;
pub mod ziparchive;
