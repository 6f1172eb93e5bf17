//! Minimally-spanned colored markup for themed style runs.
//!
//! A theme engine hands back, line by line, a sequence of runs: a text
//! slice with one fully-resolved visual style. The renderer opens a
//! `<span>` only when the style actually changes, extends the open span
//! across runs with the same style, and absorbs all-whitespace runs whose
//! background matches the previous run's background.

use vstd::prelude::*;
use crate::escape::{escape_seq, escape_chars};
use crate::numfmt::{hex2, push_hex_byte};
use crate::strutil::{str_chars, push_str_chars, chars_to_string};

verus! {

/// An RGBA color, 8 bits per channel.
#[derive(Clone, Copy, PartialEq, Eq, Structural)]
pub struct Color {
    pub r: u8,
    pub g: u8,
    pub b: u8,
    pub a: u8,
}

/// The font attributes a style may carry.
#[derive(Clone, Copy, PartialEq, Eq, Structural)]
pub struct FontStyle {
    pub bold: bool,
    pub italic: bool,
    pub underline: bool,
}

/// One fully-resolved visual style.
#[derive(Clone, Copy, PartialEq, Eq, Structural)]
pub struct Style {
    pub foreground: Color,
    pub background: Color,
    pub font_style: FontStyle,
}

/// Whether span markup carries its background color.
#[derive(Clone, Copy, PartialEq, Eq, Structural)]
pub enum IncludeBackground {
    Yes,
    No,
    IfDifferent(Color),
}

/// A contiguous text slice paired with one style, in document order.
pub struct StyleRun {
    pub style: Style,
    pub text: String,
}

pub open spec fn run_views(s: Seq<StyleRun>) -> Seq<(Style, Seq<char>)> {
    s.map_values(|r: StyleRun| (r.style, r.text@))
}

/// A color in CSS hex notation: six digits when fully opaque, eight
/// digits when the alpha channel is not opaque.
pub open spec fn css_color(c: Color) -> Seq<char> {
    if c.a != 255 {
        seq!['#'] + hex2(c.r) + hex2(c.g) + hex2(c.b) + hex2(c.a)
    } else {
        seq!['#'] + hex2(c.r) + hex2(c.g) + hex2(c.b)
    }
}

pub open spec fn bg_included(style: Style, bg: IncludeBackground) -> bool {
    match bg {
        IncludeBackground::Yes => true,
        IncludeBackground::No => false,
        IncludeBackground::IfDifferent(c) => style.background != c,
    }
}

/// The background declaration of one span, present only as configured.
pub open spec fn bg_part(style: Style, bg: IncludeBackground) -> Seq<char> {
    if bg_included(style, bg) {
        "background-color:"@ + css_color(style.background) + ";"@
    } else {
        Seq::<char>::empty()
    }
}

/// The decoration declarations of one span, in a fixed order.
pub open spec fn deco_part(style: Style) -> Seq<char> {
    (if style.font_style.underline {
        "text-decoration:underline;"@
    } else {
        Seq::<char>::empty()
    }) + (if style.font_style.bold {
        "font-weight:bold;"@
    } else {
        Seq::<char>::empty()
    }) + (if style.font_style.italic {
        "font-style:italic;"@
    } else {
        Seq::<char>::empty()
    })
}

/// The opening markup of one span: background only as configured,
/// decoration flags in a fixed order, foreground always.
pub open spec fn span_begin_markup(style: Style, bg: IncludeBackground) -> Seq<char> {
    "<span style=\""@ + bg_part(style, bg) + deco_part(style) + "color:"@ + css_color(
        style.foreground,
    ) + ";\">"@
}

/// The characters that `str::trim` treats as whitespace.
pub open spec fn is_ws_char(c: char) -> bool {
    c == ' ' || c == '\t' || c == '\n' || c == '\r' || c == '\u{000B}' || c == '\u{000C}' || c
        == '\u{0085}' || c == '\u{00A0}' || c == '\u{1680}' || ('\u{2000}' <= c && c
        <= '\u{200A}') || c == '\u{2028}' || c == '\u{2029}' || c == '\u{202F}' || c == '\u{205F}'
        || c == '\u{3000}'
}

pub open spec fn is_blank(s: Seq<char>) -> bool {
    forall|i: int| 0 <= i < s.len() ==> is_ws_char(#[trigger] s[i])
}

/// Whether a run extends the currently open span instead of opening a new
/// one: same style exactly, or same background under an all-whitespace run.
pub open spec fn keeps_style(prev: Option<Style>, style: Style, text: Seq<char>) -> bool {
    match prev {
        Option::None => false,
        Option::Some(ps) => style == ps || (style.background == ps.background && is_blank(text)),
    }
}

/// What one run adds to the output.
pub open spec fn run_piece(
    prev: Option<Style>,
    bg: IncludeBackground,
    style: Style,
    text: Seq<char>,
) -> Seq<char> {
    if keeps_style(prev, style, text) {
        escape_seq(text)
    } else {
        (if prev is Some {
            "</span>"@
        } else {
            Seq::<char>::empty()
        }) + span_begin_markup(style, bg) + escape_seq(text)
    }
}

/// The style remembered after one run.
pub open spec fn next_prev(prev: Option<Style>, style: Style, text: Seq<char>) -> Option<Style> {
    if keeps_style(prev, style, text) {
        prev
    } else {
        Option::Some(style)
    }
}

/// The output of a whole run sequence, threading the remembered style.
pub open spec fn runs_render(
    prev: Option<Style>,
    bg: IncludeBackground,
    runs: Seq<(Style, Seq<char>)>,
) -> Seq<char>
    decreases runs.len(),
{
    if runs.len() == 0 {
        Seq::empty()
    } else {
        run_piece(prev, bg, runs[0].0, runs[0].1) + runs_render(
            next_prev(prev, runs[0].0, runs[0].1),
            bg,
            runs.drop_first(),
        )
    }
}

/// The style remembered after a whole run sequence.
pub open spec fn runs_prev(prev: Option<Style>, runs: Seq<(Style, Seq<char>)>) -> Option<Style>
    decreases runs.len(),
{
    if runs.len() == 0 {
        prev
    } else {
        runs_prev(next_prev(prev, runs[0].0, runs[0].1), runs.drop_first())
    }
}

/// Whether one run opens a new span (1) or extends the open one (0).
pub open spec fn run_opens(prev: Option<Style>, style: Style, text: Seq<char>) -> int {
    if keeps_style(prev, style, text) {
        0
    } else {
        1
    }
}

/// The remembered style right before run `i` of a sequence.
pub open spec fn prev_at(
    prev0: Option<Style>,
    runs: Seq<(Style, Seq<char>)>,
    i: int,
) -> Option<Style> {
    runs_prev(prev0, runs.take(i))
}

proof fn lemma_runs_prev_snoc(prev: Option<Style>, s: Seq<(Style, Seq<char>)>, x: (Style, Seq<char>))
    ensures
        runs_prev(prev, s.push(x)) == next_prev(runs_prev(prev, s), x.0, x.1),
    decreases s.len(),
{
    if s.len() == 0 {
        assert(s.push(x).drop_first() =~= Seq::<(Style, Seq<char>)>::empty());
        assert(s.push(x)[0] == x);
    } else {
        assert(s.push(x).drop_first() =~= s.drop_first().push(x));
        assert(s.push(x)[0] == s[0]);
        lemma_runs_prev_snoc(next_prev(prev, s[0].0, s[0].1), s.drop_first(), x);
    }
}

/// Run-coalescing law: two adjacent runs with the same style never open
/// two separate spans. If run `i` opened a span, run `i + 1` extends it.
pub proof fn lemma_run_coalescing(
    prev0: Option<Style>,
    runs: Seq<(Style, Seq<char>)>,
    i: int,
)
    requires
        0 <= i,
        i + 1 < runs.len(),
        runs[i].0 == runs[i + 1].0,
    ensures
        run_opens(prev_at(prev0, runs, i), runs[i].0, runs[i].1) + run_opens(
            prev_at(prev0, runs, i + 1),
            runs[i + 1].0,
            runs[i + 1].1,
        ) <= 1,
{
    assert(runs.take(i + 1) =~= runs.take(i).push(runs[i]));
    lemma_runs_prev_snoc(prev0, runs.take(i), runs[i]);
    let p = prev_at(prev0, runs, i);
    if !keeps_style(p, runs[i].0, runs[i].1) {
        assert(prev_at(prev0, runs, i + 1) == Option::Some(runs[i].0));
        assert(keeps_style(prev_at(prev0, runs, i + 1), runs[i + 1].0, runs[i + 1].1));
    }
}

/// Run-coalescing law, rendered form: from a fresh renderer, two adjacent
/// runs with one style produce a single span around both escaped texts.
pub proof fn lemma_run_coalescing_pair(
    bg: IncludeBackground,
    r0: (Style, Seq<char>),
    r1: (Style, Seq<char>),
)
    requires
        r0.0 == r1.0,
    ensures
        runs_render(Option::None, bg, seq![r0, r1]) == span_begin_markup(r0.0, bg) + escape_seq(
            r0.1,
        ) + escape_seq(r1.1),
{
    let s = seq![r0, r1];
    assert(s.drop_first() =~= seq![r1]);
    assert(seq![r1].drop_first() =~= Seq::<(Style, Seq<char>)>::empty());
    assert(s[0] == r0);
    assert(seq![r1][0] == r1);
    assert(keeps_style(Option::Some(r0.0), r1.0, r1.1));
    assert(next_prev(Option::None, r0.0, r0.1) == Option::Some(r0.0));
    assert(runs_render(
        next_prev(Option::Some(r0.0), r1.0, r1.1),
        bg,
        Seq::<(Style, Seq<char>)>::empty(),
    ) =~= Seq::<char>::empty());
    assert(runs_render(Option::Some(r0.0), bg, seq![r1]) =~= escape_seq(r1.1));
    assert(run_piece(Option::None, bg, r0.0, r0.1) =~= span_begin_markup(r0.0, bg) + escape_seq(
        r0.1,
    ));
    assert(runs_render(Option::None, bg, s) =~= span_begin_markup(r0.0, bg) + escape_seq(r0.1)
        + escape_seq(r1.1));
}

/// Appends `c` in CSS hex notation to `out`.
pub fn write_css_color(out: &mut Vec<char>, c: Color)
    ensures
        final(out)@ == old(out)@ + css_color(c),
{
    out.push('#');
    push_hex_byte(out, c.r);
    push_hex_byte(out, c.g);
    push_hex_byte(out, c.b);
    if c.a != 255 {
        push_hex_byte(out, c.a);
    }
    proof {
        assert(out@ =~= old(out)@ + css_color(c));
    }
}

fn push_bg_part(out: &mut Vec<char>, style: &Style, bg: &IncludeBackground)
    ensures
        final(out)@ == old(out)@ + bg_part(*style, *bg),
{
    let included = match bg {
        IncludeBackground::Yes => true,
        IncludeBackground::No => false,
        IncludeBackground::IfDifferent(c) => style.background != *c,
    };
    if included {
        push_str_chars(out, "background-color:");
        write_css_color(out, style.background);
        push_str_chars(out, ";");
        proof {
            assert(out@ =~= old(out)@ + bg_part(*style, *bg));
        }
    } else {
        proof {
            assert(out@ =~= old(out)@ + bg_part(*style, *bg));
        }
    }
}

fn push_deco_part(out: &mut Vec<char>, style: &Style)
    ensures
        final(out)@ == old(out)@ + deco_part(*style),
{
    if style.font_style.underline {
        push_str_chars(out, "text-decoration:underline;");
    }
    if style.font_style.bold {
        push_str_chars(out, "font-weight:bold;");
    }
    if style.font_style.italic {
        push_str_chars(out, "font-style:italic;");
    }
    proof {
        assert(out@ =~= old(out)@ + deco_part(*style));
    }
}

fn span_begin(out: &mut Vec<char>, style: &Style, bg: &IncludeBackground)
    ensures
        final(out)@ == old(out)@ + span_begin_markup(*style, *bg),
{
    push_str_chars(out, "<span style=\"");
    push_bg_part(out, style, bg);
    push_deco_part(out, style);
    push_str_chars(out, "color:");
    write_css_color(out, style.foreground);
    push_str_chars(out, ";\">");
    proof {
        assert(out@ =~= old(out)@ + span_begin_markup(*style, *bg));
    }
}

fn chars_blank(v: &Vec<char>) -> (r: bool)
    ensures
        r == is_blank(v@),
{
    let mut i: usize = 0;
    while i < v.len()
        invariant
            i <= v.len(),
            forall|j: int| 0 <= j < i ==> is_ws_char(#[trigger] v@[j]),
        decreases v.len() - i,
    {
        let c = v[i];
        let ws = c == ' ' || c == '\t' || c == '\n' || c == '\r' || c == '\u{000B}' || c
            == '\u{000C}' || c == '\u{0085}' || c == '\u{00A0}' || c == '\u{1680}' || ('\u{2000}'
            <= c && c <= '\u{200A}') || c == '\u{2028}' || c == '\u{2029}' || c == '\u{202F}' || c
            == '\u{205F}' || c == '\u{3000}';
        if !ws {
            return false;
        }
        i = i + 1;
    }
    true
}

/// The renderer's state across one snippet: the background mode it was
/// built with and the style of the span that is currently open, if any.
pub struct StyledPrintCx {
    pub background: IncludeBackground,
    pub prev_style: Option<Style>,
}

impl StyledPrintCx {
    pub fn new(bg: IncludeBackground) -> (r: StyledPrintCx)
        ensures
            r.background == bg,
            r.prev_style is None,
    {
        StyledPrintCx { background: bg, prev_style: Option::None }
    }

    /// Renders one sequence of runs, extending or replacing the open span
    /// per run, and escaping every text slice.
    pub fn styles_to_coloured_html(&mut self, s: &mut String, v: &Vec<StyleRun>)
        ensures
            final(self).background == old(self).background,
            final(self).prev_style == runs_prev(old(self).prev_style, run_views(v@)),
            final(s)@ == old(s)@ + runs_render(
                old(self).prev_style,
                old(self).background,
                run_views(v@),
            ),
    {
        let ghost rv = run_views(v@);
        let ghost prev0 = self.prev_style;
        let ghost bg = self.background;
        let mut out: Vec<char> = Vec::new();
        let mut i: usize = 0;
        proof {
            assert(rv.skip(0) =~= rv);
            assert(out@ + runs_render(prev0, bg, rv) =~= runs_render(prev0, bg, rv));
        }
        while i < v.len()
            invariant
                i <= v.len(),
                rv == run_views(v@),
                rv.len() == v@.len(),
                self.background == bg,
                runs_prev(self.prev_style, rv.skip(i as int)) == runs_prev(prev0, rv),
                out@ + runs_render(self.prev_style, bg, rv.skip(i as int)) == runs_render(
                    prev0,
                    bg,
                    rv,
                ),
            decreases v.len() - i,
        {
            proof {
                assert(rv.skip(i as int)[0] == rv[i as int]);
                assert(rv.skip(i as int).drop_first() =~= rv.skip(i + 1));
            }
            let ghost prev_before = self.prev_style;
            let ghost out0 = out@;
            let run = &v[i];
            let cs = str_chars(run.text.as_str());
            let keep: bool = match &self.prev_style {
                Option::None => false,
                Option::Some(ps) => run.style == *ps || (run.style.background == ps.background
                    && chars_blank(&cs)),
            };
            proof {
                assert(keep == keeps_style(self.prev_style, run.style, run.text@));
            }
            if keep {
                escape_chars(&cs, &mut out);
            } else {
                if self.prev_style.is_some() {
                    push_str_chars(&mut out, "</span>");
                }
                span_begin(&mut out, &run.style, &self.background);
                escape_chars(&cs, &mut out);
                self.prev_style = Option::Some(run.style);
            }
            proof {
                assert(out@ =~= out0 + run_piece(prev_before, bg, rv[i as int].0, rv[i as int].1));
                assert(self.prev_style == next_prev(prev_before, rv[i as int].0, rv[i as int].1));
                assert(out@ + runs_render(self.prev_style, bg, rv.skip(i + 1)) =~= runs_render(
                    prev0,
                    bg,
                    rv,
                ));
            }
            i = i + 1;
        }
        proof {
            assert(rv.skip(rv.len() as int) =~= Seq::<(Style, Seq<char>)>::empty());
        }
        let piece = chars_to_string(&out);
        s.append(piece.as_str());
    }

    /// Closes the span that is still open, if any, and forgets its style.
    pub fn finish(&mut self, s: &mut String)
        ensures
            final(self).background == old(self).background,
            final(self).prev_style is None,
            final(s)@ == old(s)@ + (if old(self).prev_style is Some {
                "</span>"@
            } else {
                Seq::<char>::empty()
            }),
    {
        if self.prev_style.is_some() {
            s.append("</span>");
        }
        self.prev_style = Option::None;
    }
}

/// Per-line run sequences of one snippet.
pub open spec fn line_views(s: Seq<Vec<StyleRun>>) -> Seq<Seq<(Style, Seq<char>)>> {
    s.map_values(|v: Vec<StyleRun>| run_views(v@))
}

/// The output of a whole snippet's lines, a line separator after each,
/// threading the remembered style across lines.
pub open spec fn lines_render(
    prev: Option<Style>,
    bg: IncludeBackground,
    lines: Seq<Seq<(Style, Seq<char>)>>,
) -> Seq<char>
    decreases lines.len(),
{
    if lines.len() == 0 {
        Seq::empty()
    } else {
        runs_render(prev, bg, lines[0]) + "\n"@ + lines_render(
            runs_prev(prev, lines[0]),
            bg,
            lines.drop_first(),
        )
    }
}

/// The style remembered after a whole snippet's lines.
pub open spec fn lines_prev(
    prev: Option<Style>,
    lines: Seq<Seq<(Style, Seq<char>)>>,
) -> Option<Style>
    decreases lines.len(),
{
    if lines.len() == 0 {
        prev
    } else {
        lines_prev(runs_prev(prev, lines[0]), lines.drop_first())
    }
}

pub open spec fn span_close_if(prev: Option<Style>) -> Seq<char> {
    if prev is Some {
        "</span>"@
    } else {
        Seq::<char>::empty()
    }
}

/// The opening of the snippet's `<pre>` element, carrying the theme
/// background as a six-digit hex color.
pub open spec fn pre_open(c: Color) -> Seq<char> {
    "<pre style=\"background-color:"@ + seq!['#'] + hex2(c.r) + hex2(c.g) + hex2(c.b) + ";\">\n"@
}

/// The whole markup of one themed snippet.
pub open spec fn snippet_html(lines: Seq<Seq<(Style, Seq<char>)>>, background: Color) -> Seq<
    char,
> {
    pre_open(background) + lines_render(
        Option::None,
        IncludeBackground::IfDifferent(background),
        lines,
    ) + span_close_if(lines_prev(Option::None, lines)) + "</pre>\n"@
}

/// Renders a snippet whose lines a theme engine has already split into
/// style runs: a `<pre>` carrying the theme background, each line's runs
/// coalesced into minimal spans, and a line separator after each line.
pub fn highlight_string_snippet(lines: &Vec<Vec<StyleRun>>, background: Color) -> (r: String)
    ensures
        r@ == snippet_html(line_views(lines@), background),
{
    let ghost lv = line_views(lines@);
    let ghost bgv = IncludeBackground::IfDifferent(background);
    let mut output = String::new();
    let mut head: Vec<char> = Vec::new();
    push_str_chars(&mut head, "<pre style=\"background-color:");
    head.push('#');
    push_hex_byte(&mut head, background.r);
    push_hex_byte(&mut head, background.g);
    push_hex_byte(&mut head, background.b);
    push_str_chars(&mut head, ";\">\n");
    let head_s = chars_to_string(&head);
    output.append(head_s.as_str());
    proof {
        assert(output@ =~= pre_open(background));
    }
    let mut spcx = StyledPrintCx::new(IncludeBackground::IfDifferent(background));
    let mut i: usize = 0;
    proof {
        assert(lv.skip(0) =~= lv);
        assert(output@ + lines_render(spcx.prev_style, bgv, lv) =~= pre_open(background)
            + lines_render(Option::None, bgv, lv));
    }
    while i < lines.len()
        invariant
            i <= lines.len(),
            lv == line_views(lines@),
            lv.len() == lines@.len(),
            bgv == IncludeBackground::IfDifferent(background),
            spcx.background == bgv,
            lines_prev(spcx.prev_style, lv.skip(i as int)) == lines_prev(Option::None, lv),
            output@ + lines_render(spcx.prev_style, bgv, lv.skip(i as int)) == pre_open(background)
                + lines_render(Option::None, bgv, lv),
        decreases lines.len() - i,
    {
        proof {
            assert(lv.skip(i as int)[0] == lv[i as int]);
            assert(lv.skip(i as int).drop_first() =~= lv.skip(i + 1));
        }
        let ghost prev_before = spcx.prev_style;
        let ghost out0 = output@;
        spcx.styles_to_coloured_html(&mut output, &lines[i]);
        output.append("\n");
        proof {
            assert(output@ =~= out0 + runs_render(prev_before, bgv, lv[i as int]) + "\n"@);
            assert(output@ + lines_render(spcx.prev_style, bgv, lv.skip(i + 1)) =~= pre_open(
                background,
            ) + lines_render(Option::None, bgv, lv));
        }
        i = i + 1;
    }
    proof {
        assert(lv.skip(lv.len() as int) =~= Seq::<Seq<(Style, Seq<char>)>>::empty());
    }
    spcx.finish(&mut output);
    output.append("</pre>\n");
    proof {
        assert(output@ =~= snippet_html(lv, background));
    }
    output
}

} // verus!
