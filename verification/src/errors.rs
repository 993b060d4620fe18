//! Error kinds of the template pipeline. All variants carry plain values;
//! the calling layer decides how to present them.

use vstd::prelude::*;

verus! {

/// A fatal error of the template pipeline.
#[derive(Debug)]
pub enum TemplateError {
    /// The configured template-source URL cannot be parsed.
    SourceConfig { url: String },
    /// A fetch failed: non-success HTTP status or transport failure.
    Fetch { url: String, status: Option<u16> },
    /// A manifest (root or per-template) or a packaged archive does not
    /// match the expected schema; `context` names the offending document.
    Parse { context: String },
    /// The requested template is not available.
    TemplateNotFound { name: String },
    /// A file listed by a template is absent from its package.
    FileNotFound { template: String, path: String },
    /// A filesystem operation failed on the named path.
    Io { path: String },
}

} // verus!
