//! Module-analysis and module-resolution requests.

use vstd::prelude::*;

use crate::types::ModuleInput;

verus! {

pub struct AnalyzeQuery {
    pub filename: String,
    pub source_text: String,
}

impl AnalyzeQuery {
    pub fn new(filename: String, source_text: String) -> (r: Self)
        ensures
            r.filename == filename,
            r.source_text == source_text,
    {
        AnalyzeQuery { filename, source_text }
    }
}

pub struct AnalyzeBatchQuery {
    pub modules: Vec<ModuleInput>,
}

impl AnalyzeBatchQuery {
    pub fn new(modules: Vec<ModuleInput>) -> (r: Self)
        ensures
            r.modules == modules,
    {
        AnalyzeBatchQuery { modules }
    }
}

/// Where a specifier resolved to, or why it did not.
#[derive(Debug, Clone)]
pub struct ResolveResult {
    pub path: Option<String>,
    pub error: Option<String>,
}

impl ResolveResult {
    /// The path a specifier resolved to, or the resolver's reason why not.
    pub fn from_outcome(outcome: Result<String, String>) -> (r: Self)
        ensures
            match outcome {
                Ok(p) => r.path == Some(p) && r.error is None,
                Err(e) => r.path is None && r.error == Some(e),
            },
    {
        match outcome {
            Ok(path) => ResolveResult { path: Some(path), error: None },
            Err(e) => ResolveResult { path: None, error: Some(e) },
        }
    }
}

#[derive(Debug, Clone)]
pub struct ResolverOptions {
    pub extensions: Option<Vec<String>>,
    pub main_fields: Option<Vec<String>>,
    pub condition_names: Option<Vec<String>>,
}

impl Default for ResolverOptions {
    fn default() -> (r: Self)
        ensures
            r.extensions is None,
            r.main_fields is None,
            r.condition_names is None,
    {
        ResolverOptions { extensions: None, main_fields: None, condition_names: None }
    }
}

pub struct ResolveQuery {
    pub directory: String,
    pub specifier: String,
    pub options: ResolverOptions,
}

impl ResolveQuery {
    pub fn new(directory: String, specifier: String, options: Option<ResolverOptions>) -> (r: Self)
        ensures
            r.directory == directory,
            r.specifier == specifier,
            match options {
                Some(o) => r.options == o,
                None => r.options.extensions is None && r.options.main_fields is None
                    && r.options.condition_names is None,
            },
    {
        let options = match options {
            Some(o) => o,
            None => ResolverOptions::default(),
        };
        ResolveQuery { directory, specifier, options }
    }
}

pub struct ResolveBatchQuery {
    pub directory: String,
    pub specifiers: Vec<String>,
    pub options: ResolverOptions,
}

impl ResolveBatchQuery {
    pub fn new(directory: String, specifiers: Vec<String>, options: Option<ResolverOptions>) -> (r: Self)
        ensures
            r.directory == directory,
            r.specifiers == specifiers,
            match options {
                Some(o) => r.options == o,
                None => r.options.extensions is None && r.options.main_fields is None
                    && r.options.condition_names is None,
            },
    {
        let options = match options {
            Some(o) => o,
            None => ResolverOptions::default(),
        };
        ResolveBatchQuery { directory, specifiers, options }
    }
}

/// The entry point the host holds.
pub struct FacetPack {}

impl FacetPack {
    pub fn new() -> (r: Self) {
        FacetPack {}
    }
}

} // verus!
