//! Grammar-highlighter configurations for the languages the registry knows.
//!
//! Each constructor builds a `tree_sitter_highlight::HighlightConfiguration`
//! from a bundled grammar and its query files. The configuration is opaque
//! to the rest of the crate: it is only handed back to the highlighter.
//! Each grammar's bundled queries are written for that same grammar and
//! compile, so every constructor succeeds; the `Result` shape still
//! reports a query error as a string rather than panicking.

use vstd::prelude::*;
use tree_sitter_highlight::HighlightConfiguration;

verus! {

#[verifier::external_type_specification]
#[verifier::external_body]
pub struct ExHighlightConfiguration(HighlightConfiguration);

/// A grammar configuration ready to be given recognized category names.
pub struct TreeSitterCollection {
    pub conf: HighlightConfiguration,
}

impl TreeSitterCollection {
    /// Relies on `HighlightConfiguration::new` with the grammar and
    /// highlight query of `tree_sitter_rust`.
    #[verifier::external_body]
    pub fn rust() -> (r: Result<TreeSitterCollection, String>)
        ensures
            r is Ok,
    {
        let conf = HighlightConfiguration::new(
            tree_sitter_rust::language(),
            tree_sitter_rust::HIGHLIGHT_QUERY,
            "",
            "",
        ).map_err(|e| format!("{:?}", e))?;
        Ok(TreeSitterCollection { conf })
    }

    /// Relies on `HighlightConfiguration::new` with the grammar of
    /// `tree_sitter_typescript`, whose highlight and locals queries extend
    /// the `tree_sitter_javascript` ones.
    #[verifier::external_body]
    pub fn typescript() -> (r: Result<TreeSitterCollection, String>)
        ensures
            r is Ok,
    {
        let mut highlights = tree_sitter_typescript::HIGHLIGHT_QUERY.to_owned();
        highlights.push_str(tree_sitter_javascript::HIGHLIGHT_QUERY);
        let mut locals = tree_sitter_typescript::LOCALS_QUERY.to_owned();
        locals.push_str(tree_sitter_javascript::LOCALS_QUERY);
        let conf = HighlightConfiguration::new(
            tree_sitter_typescript::language_typescript(),
            &highlights,
            tree_sitter_javascript::INJECTION_QUERY,
            &locals,
        ).map_err(|e| format!("{:?}", e))?;
        Ok(TreeSitterCollection { conf })
    }

    /// Relies on `HighlightConfiguration::new` with the TSX grammar of
    /// `tree_sitter_typescript` and the JSX, TypeScript and JavaScript
    /// highlight queries combined.
    #[verifier::external_body]
    pub fn tsx() -> (r: Result<TreeSitterCollection, String>)
        ensures
            r is Ok,
    {
        let mut highlights = tree_sitter_javascript::JSX_HIGHLIGHT_QUERY.to_owned();
        highlights.push_str(tree_sitter_typescript::HIGHLIGHT_QUERY);
        highlights.push_str(tree_sitter_javascript::HIGHLIGHT_QUERY);
        let mut locals = tree_sitter_typescript::LOCALS_QUERY.to_owned();
        locals.push_str(tree_sitter_javascript::LOCALS_QUERY);
        let conf = HighlightConfiguration::new(
            tree_sitter_typescript::language_tsx(),
            &highlights,
            tree_sitter_javascript::INJECTION_QUERY,
            &locals,
        ).map_err(|e| format!("{:?}", e))?;
        Ok(TreeSitterCollection { conf })
    }

    /// Relies on `HighlightConfiguration::new` with the grammar and all
    /// three queries of `tree_sitter_javascript`.
    #[verifier::external_body]
    pub fn javascript() -> (r: Result<TreeSitterCollection, String>)
        ensures
            r is Ok,
    {
        let conf = HighlightConfiguration::new(
            tree_sitter_javascript::language(),
            tree_sitter_javascript::HIGHLIGHT_QUERY,
            tree_sitter_javascript::INJECTION_QUERY,
            tree_sitter_javascript::LOCALS_QUERY,
        ).map_err(|e| format!("{:?}", e))?;
        Ok(TreeSitterCollection { conf })
    }

    /// Relies on `HighlightConfiguration::new` with the grammar of
    /// `tree_sitter_javascript` and its JSX highlight query.
    #[verifier::external_body]
    pub fn jsx() -> (r: Result<TreeSitterCollection, String>)
        ensures
            r is Ok,
    {
        let conf = HighlightConfiguration::new(
            tree_sitter_javascript::language(),
            tree_sitter_javascript::JSX_HIGHLIGHT_QUERY,
            tree_sitter_javascript::INJECTION_QUERY,
            "",
        ).map_err(|e| format!("{:?}", e))?;
        Ok(TreeSitterCollection { conf })
    }

    /// Relies on `HighlightConfiguration::new` with the grammar and
    /// highlight query of `tree_sitter_go`.
    #[verifier::external_body]
    pub fn go() -> (r: Result<TreeSitterCollection, String>)
        ensures
            r is Ok,
    {
        let conf = HighlightConfiguration::new(
            tree_sitter_go::language(),
            tree_sitter_go::HIGHLIGHT_QUERY,
            "",
            "",
        ).map_err(|e| format!("{:?}", e))?;
        Ok(TreeSitterCollection { conf })
    }

    /// Relies on `HighlightConfiguration::new` with the grammar and
    /// highlight query of `tree_sitter_c`.
    #[verifier::external_body]
    pub fn c() -> (r: Result<TreeSitterCollection, String>)
        ensures
            r is Ok,
    {
        let conf = HighlightConfiguration::new(
            tree_sitter_c::language(),
            tree_sitter_c::HIGHLIGHT_QUERY,
            "",
            "",
        ).map_err(|e| format!("{:?}", e))?;
        Ok(TreeSitterCollection { conf })
    }

    /// Relies on `HighlightConfiguration::new` with the grammar, highlight
    /// query and injection query of `tree_sitter_html`.
    #[verifier::external_body]
    pub fn html() -> (r: Result<TreeSitterCollection, String>)
        ensures
            r is Ok,
    {
        let conf = HighlightConfiguration::new(
            tree_sitter_html::language(),
            tree_sitter_html::HIGHLIGHT_QUERY,
            tree_sitter_html::INJECTION_QUERY,
            "",
        ).map_err(|e| format!("{:?}", e))?;
        Ok(TreeSitterCollection { conf })
    }

    /// Relies on `HighlightConfiguration::new` with the grammar and
    /// highlight query of `tree_sitter_toml`.
    #[verifier::external_body]
    pub fn toml() -> (r: Result<TreeSitterCollection, String>)
        ensures
            r is Ok,
    {
        let conf = HighlightConfiguration::new(
            tree_sitter_toml::language(),
            tree_sitter_toml::HIGHLIGHT_QUERY,
            "",
            "",
        ).map_err(|e| format!("{:?}", e))?;
        Ok(TreeSitterCollection { conf })
    }

    /// Relies on `HighlightConfiguration::new` with the grammar and
    /// highlight query of `tree_sitter_python`.
    #[verifier::external_body]
    pub fn python() -> (r: Result<TreeSitterCollection, String>)
        ensures
            r is Ok,
    {
        let conf = HighlightConfiguration::new(
            tree_sitter_python::language(),
            tree_sitter_python::HIGHLIGHT_QUERY,
            "",
            "",
        ).map_err(|e| format!("{:?}", e))?;
        Ok(TreeSitterCollection { conf })
    }

    /// Relies on `HighlightConfiguration::new` with the grammar of
    /// `tree_sitter_dockerfile`, which bundles no highlight query.
    #[verifier::external_body]
    pub fn dockerfile() -> (r: Result<TreeSitterCollection, String>)
        ensures
            r is Ok,
    {
        let conf = HighlightConfiguration::new(tree_sitter_dockerfile::language(), "", "", "")
            .map_err(|e| format!("{:?}", e))?;
        Ok(TreeSitterCollection { conf })
    }

    /// Relies on `HighlightConfiguration::new` with the grammar and
    /// highlight query of `tree_sitter_json`.
    #[verifier::external_body]
    pub fn json() -> (r: Result<TreeSitterCollection, String>)
        ensures
            r is Ok,
    {
        let conf = HighlightConfiguration::new(
            tree_sitter_json::language(),
            tree_sitter_json::HIGHLIGHT_QUERY,
            "",
            "",
        ).map_err(|e| format!("{:?}", e))?;
        Ok(TreeSitterCollection { conf })
    }
}

} // verus!
