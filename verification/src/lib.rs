//! Markdown-to-HTML rendering with syntax-highlighted code blocks.
//!
//! The crate walks the event stream of a markdown tokenizer once, buffers
//! fenced code blocks and headings, and replaces them with synthesized HTML:
//! code blocks gain nested highlight markup, headings gain anchor links and
//! feed a table of contents.
//!
//! One registry row differs in behavior from its usual form: no grammar
//! is linked for `nix`, so a nix fence renders as escaped text under the
//! `Nix code` tag instead of highlighted markup.

pub mod code_format;
pub mod escape;
pub mod events;
pub mod highlight;
pub mod langs;
pub mod numfmt;
pub mod parser;
pub mod strutil;
pub mod syntect;
pub mod tree_sitter_collection;

use vstd::prelude::*;
use vstd::string::*;
use crate::escape::escape_seq;
use crate::highlight::{hl_balanced, hl_events_of, hl_ok_of, hl_render, hl_views,
    render_hl_events, run_highlighter};
use crate::langs::{Lang, Langs};
use crate::events::{fm_views, frontmatter_of, md_infos_of, parse_markdown, string_from_utf8,
    OwnedFrontmatter, OwnedFrontmatterModel};
use crate::parser::{generate_toc, process_stream, process_stream_with_frontmatter, run_model,
    toc_html, toc_views, TocEntry};

verus! {

/// The outcome of one render call: the document as HTML, the rendered
/// table of contents when any heading was captured, and the document's
/// frontmatter when it was asked for and present.
#[derive(Default)]
pub struct HTMLOutput {
    pub toc: Option<String>,
    pub content: String,
    pub frontmatter: Option<OwnedFrontmatter>,
}

/// What the pipeline guarantees of a successful render: the table of
/// contents is the rewriter run over the input's classified event stream
/// — absent exactly when that run captured no heading — and the returned
/// frontmatter is what extraction finds in the input, or absent when
/// extraction was not asked for.
pub open spec fn html_output_ok(
    out: HTMLOutput,
    input: Seq<char>,
    extract_frontmatter: bool,
) -> bool {
    let entries = run_model(md_infos_of(input, extract_frontmatter)).toc;
    &&& (out.toc is Some <==> entries.len() > 0)
    &&& (out.toc matches Some(t) ==> t@ == toc_html(entries))
    &&& fm_views(out.frontmatter) == (if extract_frontmatter {
        frontmatter_of(input)
    } else {
        Option::<OwnedFrontmatterModel>::None
    })
}

/// TOC emptiness law at the pipeline level: a successful render of an
/// input whose classified stream holds no heading construct carries an
/// absent table of contents, not an empty one.
pub proof fn lemma_no_headings_no_toc(
    out: HTMLOutput,
    input: Seq<char>,
    extract_frontmatter: bool,
)
    requires
        html_output_ok(out, input, extract_frontmatter),
        forall|i: int| 0 <= i < md_infos_of(input, extract_frontmatter).len() ==> !((
        #[trigger] md_infos_of(input, extract_frontmatter)[i]) is HeadingEnd),
    ensures
        out.toc is None,
{
    crate::parser::lemma_toc_empty(md_infos_of(input, extract_frontmatter));
}

/// Processes markdown to HTML and highlights the code blocks. No
/// frontmatter is extracted, so none is returned. Rendering always
/// succeeds: the registry builds, and the serializer's buffer is valid
/// text.
pub fn process_markdown_to_html(input: &str) -> (r: Result<HTMLOutput, HighlightError>)
    ensures
        r is Ok,
        r matches Ok(out) ==> html_output_ok(out, input@, false),
{
    process_markdown_to_html_with_frontmatter(input, false)
}

/// Processes markdown to HTML and highlights the code blocks; with
/// `extract_frontmatter` the frontmatter code block is parsed, removed
/// from the output, and handed back as values. Rendering always
/// succeeds: the registry builds, and the serializer's buffer is valid
/// text.
pub fn process_markdown_to_html_with_frontmatter(input: &str, extract_frontmatter: bool) -> (r:
    Result<HTMLOutput, HighlightError>)
    ensures
        r is Ok,
        r matches Ok(out) ==> html_output_ok(out, input@, extract_frontmatter),
{
    let langs = match Langs::new() {
        Ok(l) => l,
        Err(m) => {
            return Err(HighlightError::CouldNotBuildHighlighter(m));
        },
    };
    let mut toc: Vec<TocEntry> = Vec::new();
    let mut output: Vec<u8> = Vec::new();
    let mut frontmatter: Option<OwnedFrontmatter> = None;
    if extract_frontmatter {
        process_stream_with_frontmatter(input, &langs, &mut toc, &mut output, &mut frontmatter);
    } else {
        let (events, fm) = parse_markdown(input, false);
        proof {
            assert(fm_views(fm) is None);
        }
        frontmatter = fm;
        process_stream(events, &langs, &mut toc, &mut output);
    }
    proof {
        assert(toc_views(toc@) =~= run_model(md_infos_of(input@, extract_frontmatter)).toc);
        assert(toc@.len() == toc_views(toc@).len());
    }
    let toc_html_out = generate_toc(&toc);
    match string_from_utf8(output) {
        Ok(s) => {
            let out = HTMLOutput { toc: toc_html_out, content: s, frontmatter };
            proof {
                assert(html_output_ok(out, input@, extract_frontmatter));
            }
            Ok(out)
        },
        Err(m) => Err(HighlightError::StringGenerationError(m)),
    }
}

/// What can go wrong while turning a code block or a document into HTML.
///
/// The first two variants are expected outcomes for fence tokens without a
/// registered language or highlighter; the last two point at a broken
/// grammar or an output buffer that is not valid text.
#[derive(Debug)]
pub enum HighlightError {
    NoLang,
    NoHighlighter,
    CouldNotBuildHighlighter(String),
    StringGenerationError(String),
}

impl HighlightError {
    /// An error is benign when it only says that a fence token has no
    /// registered language or no highlighter for it: rendering then falls
    /// back to escaped raw text without surfacing a diagnostic.
    pub fn benign(&self) -> (r: bool)
        ensures
            r <==> (self is NoLang || self is NoHighlighter),
    {
        match self {
            HighlightError::NoLang | HighlightError::NoHighlighter => true,
            _ => false,
        }
    }

    /// Wraps a highlighter failure message.
    pub fn could_not_build(msg: &str) -> (r: HighlightError)
        ensures
            r matches HighlightError::CouldNotBuildHighlighter(m) && m@ == msg@,
    {
        HighlightError::CouldNotBuildHighlighter(String::from_str(msg))
    }
}

/// Appends `input` to `out` with `<`, `>` and `&` replaced by their
/// HTML entities, leaving every other character as it is.
pub fn write_code_escaped(out: &mut String, input: &str)
    ensures
        final(out)@ == old(out)@ + escape_seq(input@),
{
    let cs = crate::strutil::str_chars(input);
    let mut buf: Vec<char> = Vec::new();
    crate::escape::escape_chars(&cs, &mut buf);
    let piece = crate::strutil::chars_to_string(&buf);
    out.append(piece.as_str());
}

/// Appends the nested highlight markup of `source` to `w`, for the
/// language a fence token resolved to. Fails with a benign error when no
/// language or no highlighter is at hand, with a non-benign one exactly
/// when the highlighter errs or hands back an unbalanced stream, and
/// appends nothing on any failure; on success the appended markup
/// renders exactly the balanced stream the grammar highlighter yields
/// for this configuration and source.
pub fn highlight_code(w: &mut String, source: &str, lang: Option<&Lang>) -> (r: Result<
    (),
    HighlightError,
>)
    ensures
        (r matches Err(e) && e is NoLang) <==> lang is None,
        (r matches Err(e) && e is NoHighlighter) <==> (lang matches Some(l) && l.conf is None),
        r matches Err(e) ==> (e is NoLang || e is NoHighlighter || e is CouldNotBuildHighlighter),
        r is Err ==> final(w)@ == old(w)@,
        lang matches Some(l) ==> (l.conf matches Some(c) ==> (r is Ok <==> (hl_ok_of(c, source@)
            && hl_balanced(hl_events_of(c, source@))))),
        r is Ok ==> (lang matches Some(l) && l.conf matches Some(c) && hl_balanced(
            hl_events_of(c, source@),
        ) && final(w)@ == old(w)@ + hl_render(hl_events_of(c, source@))),
{
    let l = match lang {
        Option::None => {
            return Err(HighlightError::NoLang);
        },
        Option::Some(l) => l,
    };
    let conf = match &l.conf {
        Option::None => {
            return Err(HighlightError::NoHighlighter);
        },
        Option::Some(c) => c,
    };
    let events = match run_highlighter(conf, source) {
        Ok(evs) => evs,
        Err(m) => {
            return Err(HighlightError::CouldNotBuildHighlighter(m));
        },
    };
    let rendered = match render_hl_events(&events) {
        Ok(v) => v,
        Err(e) => {
            return Err(e);
        },
    };
    let piece = crate::strutil::chars_to_string(&rendered);
    w.append(piece.as_str());
    proof {
        assert(hl_views(events@) == hl_events_of(*conf, source@));
        assert(hl_balanced(hl_events_of(*conf, source@)));
        assert(w@ == old(w)@ + hl_render(hl_events_of(*conf, source@)));
    }
    Ok(())
}

} // verus!
