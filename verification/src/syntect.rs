//! A small builder around the themed-snippet path.

use vstd::prelude::*;
use crate::code_format::{Color, StyleRun, highlight_string_snippet, snippet_html, line_views};

verus! {

/// Chooses how a standalone snippet is highlighted: by a token (such as a
/// fence-info string) or by a file extension. The syntax lookup itself is
/// the theme engine's; this type carries the choice and renders what the
/// engine resolved.
pub struct SyntectFormatter<'a> {
    pub token: Option<&'a str>,
    pub extension: Option<&'a str>,
}

impl<'a> SyntectFormatter<'a> {
    pub fn new() -> (r: SyntectFormatter<'a>)
        ensures
            r.token is None,
            r.extension is None,
    {
        SyntectFormatter { token: Option::None, extension: Option::None }
    }

    pub fn token(self, token: &'a str) -> (r: SyntectFormatter<'a>)
        ensures
            r.token matches Some(t) && t@ == token@,
            r.extension == self.extension,
    {
        SyntectFormatter { token: Option::Some(token), extension: self.extension }
    }

    /// Renders a snippet. With the engine's per-line runs and the theme
    /// background the snippet is fully styled; with none resolved it is a
    /// plain block, unescaped, as the engine's own fallback has it.
    pub fn highlight_snippet(
        &self,
        snippet: &str,
        lines: Option<&Vec<Vec<StyleRun>>>,
        background: Color,
    ) -> (r: String)
        ensures
            lines matches Some(l) ==> r@ == snippet_html(line_views(l@), background),
            lines is None ==> r@ == "<pre><code>"@ + snippet@ + "</code></pre>"@,
    {
        match lines {
            Option::Some(l) => highlight_string_snippet(l, background),
            Option::None => {
                let mut out = String::new();
                out.append("<pre><code>");
                out.append(snippet);
                out.append("</code></pre>");
                proof {
                    assert(out@ =~= "<pre><code>"@ + snippet@ + "</code></pre>"@);
                }
                out
            },
        }
    }
}

} // verus!
