//! The document rewriter: one forward pass over the tokenizer's events.
//!
//! The rewriter is a state machine over the classified form of each event
//! ([`crate::events::MdEvent`]). It buffers the text of a fenced code
//! block or of a heading, suppresses heading interception inside
//! blockquotes and figcaption regions, and decides per event whether the
//! original event passes through, is replaced by an empty placeholder, or
//! is replaced by synthesized HTML. Headings feed the table of contents.

use vstd::prelude::*;
use pulldown_cmark::Event;
use crate::escape::escape_seq;
use crate::events::{clone_event, empty_text_event, fm_views, frontmatter_of, html_event,
    md_infos_of, pair_infos, parse_markdown, utf8_decode_of, write_html_events, MdEvent,
    MdEventModel, OwnedFrontmatter};
use crate::highlight::{hl_balanced, hl_events_of, hl_ok_of, hl_render};
use crate::langs::{LangEntry, Langs, lookup};
use crate::numfmt::{dec_of, push_usize};
use crate::strutil::{chars_to_string, contains_chars, contains_seq, push_str_chars, str_chars};

verus! {

/// One table-of-contents row: the heading level, the heading's inline
/// markup as captured, and the anchor slug derived from its plain text.
pub struct TocEntry {
    pub level: u8,
    pub text: String,
    pub slug: String,
}

pub type Toc = Vec<TocEntry>;

/// The mathematical form of a table-of-contents row.
#[verifier::ext_equal]
pub struct TocEntryModel {
    pub level: int,
    pub text: Seq<char>,
    pub slug: Seq<char>,
}

impl View for TocEntry {
    type V = TocEntryModel;

    open spec fn view(&self) -> TocEntryModel {
        TocEntryModel { level: self.level as int, text: self.text@, slug: self.slug@ }
    }
}

pub open spec fn toc_views(s: Seq<TocEntry>) -> Seq<TocEntryModel> {
    s.map_values(|e: TocEntry| e@)
}

/// One TOC list item: a level-carrying class and an anchor link, with the
/// entry's stored markup as the visible label.
pub open spec fn toc_entry_html(e: TocEntryModel) -> Seq<char> {
    "<li class=\"toc-entry level-"@ + dec_of(e.level) + "\"><a href=\"#"@ + e.slug + "\">"@
        + e.text + "</a></li>"@
}

pub open spec fn toc_items(s: Seq<TocEntryModel>) -> Seq<char>
    decreases s.len(),
{
    if s.len() == 0 {
        Seq::empty()
    } else {
        toc_items(s.drop_last()) + toc_entry_html(s.last())
    }
}

/// The rendered table of contents, for a non-empty entry list.
pub open spec fn toc_html(s: Seq<TocEntryModel>) -> Seq<char> {
    "<ul class=\"table-of-contents\">"@ + toc_items(s) + "</ul>"@
}

/// Renders the table of contents: absent (not an empty container) when no
/// heading was captured, else one list item per entry in document order.
pub fn generate_toc(toc: &Vec<TocEntry>) -> (r: Option<String>)
    ensures
        r is Some <==> toc@.len() > 0,
        r matches Some(s) ==> s@ == toc_html(toc_views(toc@)),
{
    if toc.len() == 0 {
        return None;
    }
    let ghost tv = toc_views(toc@);
    let mut out: Vec<char> = Vec::new();
    push_str_chars(&mut out, "<ul class=\"table-of-contents\">");
    let mut i: usize = 0;
    proof {
        assert(tv.take(0) =~= Seq::<TocEntryModel>::empty());
        assert(out@ =~= "<ul class=\"table-of-contents\">"@ + toc_items(tv.take(0)));
    }
    while i < toc.len()
        invariant
            i <= toc.len(),
            tv == toc_views(toc@),
            tv.len() == toc@.len(),
            out@ == "<ul class=\"table-of-contents\">"@ + toc_items(tv.take(i as int)),
        decreases toc.len() - i,
    {
        let entry = &toc[i];
        push_str_chars(&mut out, "<li class=\"toc-entry level-");
        push_usize(&mut out, entry.level as usize);
        push_str_chars(&mut out, "\"><a href=\"#");
        push_str_chars(&mut out, entry.slug.as_str());
        push_str_chars(&mut out, "\">");
        push_str_chars(&mut out, entry.text.as_str());
        push_str_chars(&mut out, "</a></li>");
        proof {
            assert(tv.take(i + 1).drop_last() =~= tv.take(i as int));
            assert(tv.take(i + 1).last() == tv[i as int]);
            assert(out@ =~= "<ul class=\"table-of-contents\">"@ + toc_items(tv.take(i + 1)));
        }
        i = i + 1;
    }
    proof {
        assert(tv.take(tv.len() as int) =~= tv);
    }
    push_str_chars(&mut out, "</ul>");
    Some(chars_to_string(&out))
}

/// The slug that the text of a heading derives.
pub uninterp spec fn slug_of(s: Seq<char>) -> Seq<char>;

/// Relies on `slug::slugify`: the slug is a function of the text alone
/// (lowercased, word-separator-normalized).
#[verifier::external_body]
pub fn slugify(s: &str) -> (r: String)
    ensures
        r@ == slug_of(s@),
{
    slug::slugify(s)
}

/// The quoted, escaped notation that `{:?}` gives a string.
pub uninterp spec fn debug_str_of(s: Seq<char>) -> Seq<char>;

/// Relies on `str`'s `Debug` impl through `format!("{:?}", ..)`: the
/// notation is a function of the string alone.
#[verifier::external_body]
fn debug_quoted(s: &str) -> (r: String)
    ensures
        r@ == debug_str_of(s@),
{
    format!("{:?}", s)
}

/// The element name of a heading level; levels outside 1 through 6 are
/// folded onto `h6`, matching the renderer.
pub open spec fn htag(level: int) -> Seq<char> {
    if level == 1 {
        "h1"@
    } else if level == 2 {
        "h2"@
    } else if level == 3 {
        "h3"@
    } else if level == 4 {
        "h4"@
    } else if level == 5 {
        "h5"@
    } else {
        "h6"@
    }
}

fn htag_str(level: u8) -> (r: &'static str)
    ensures
        r@ == htag(level as int),
{
    if level == 1 {
        "h1"
    } else if level == 2 {
        "h2"
    } else if level == 3 {
        "h3"
    } else if level == 4 {
        "h4"
    } else if level == 5 {
        "h5"
    } else {
        "h6"
    }
}

/// The synthesized heading element: the level's tag around a self-link
/// anchor (id and href both carry the slug) whose visible content is the
/// captured inline markup.
pub open spec fn heading_html(level: int, markup: Seq<char>, slug: Seq<char>) -> Seq<char> {
    "\n                        <"@ + htag(level) + ">\n                            <a id=\""@
        + slug + "\" class=\"anchor\" href=\"#"@ + slug + "\">\n                                "@
        + markup + "\n                            </a>\n                        </"@ + htag(level)
        + ">\n                        "@
}

/// The display name a fence token resolves to: the registered language's
/// name, or the raw token itself for an unknown one.
pub open spec fn display_of(langs: Seq<LangEntry>, k: Seq<char>) -> Seq<char> {
    match lookup(langs, k) {
        Option::None => k,
        Option::Some(l) => l.name@,
    }
}

/// The body of a rendered code block: for a token without a registered
/// highlighter it is the escaped source; with one, it is the rendering
/// of exactly the stream the grammar highlighter yields for that
/// configuration and source when the highlighter succeeds with a
/// balanced stream, and the escaped source otherwise.
pub open spec fn code_inner_of(
    langs: Seq<LangEntry>,
    lang: Seq<char>,
    source: Seq<char>,
) -> Seq<char> {
    match lookup(langs, lang) {
        Option::None => escape_seq(source),
        Option::Some(l) => match l.conf {
            Option::None => escape_seq(source),
            Option::Some(c) => if hl_ok_of(c, source) && hl_balanced(hl_events_of(c, source)) {
                hl_render(hl_events_of(c, source))
            } else {
                escape_seq(source)
            },
        },
    }
}

/// The fixed skeleton of a rendered code block: the outer container, a
/// language-tag line only when the display name is non-empty, and a
/// `<pre>` carrying the raw fence token as a quoted data attribute.
pub open spec fn code_block_html(token: Seq<char>, display: Seq<char>, inner: Seq<char>) -> Seq<
    char,
> {
    "<div class=\"code-block\">"@ + (if display.len() > 0 {
        "<div class=\"language-tag\">"@ + display + "</div>"@
    } else {
        Seq::<char>::empty()
    }) + "<pre class=\"code-block-inner\" data-lang="@ + debug_str_of(token) + ">"@ + inner
        + "</pre></div>"@
}

/// Renders one closed code block: resolves the fence token, highlights
/// the buffered source when a highlighter is at hand, and falls back to
/// the escaped source exactly on a highlighter failure.
pub fn render_code_block(lang: &String, source: &String, langs: &Langs) -> (r: String)
    ensures
        r@ == code_block_html(
            lang@,
            display_of(langs.langs@, lang@),
            code_inner_of(langs.langs@, lang@, source@),
        ),
{
    let mut out = String::new();
    out.append("<div class=\"code-block\">");
    let lang_entry = langs.get(lang.as_str());
    let tag: &str = match lang_entry {
        Option::Some(l) => l.name,
        Option::None => lang.as_str(),
    };
    if !tag.is_empty() {
        out.append("<div class=\"language-tag\">");
        out.append(tag);
        out.append("</div>");
    }
    out.append("<pre class=\"code-block-inner\" data-lang=");
    let quoted = debug_quoted(lang.as_str());
    out.append(quoted.as_str());
    out.append(">");
    proof {
        assert(tag@ == display_of(langs.langs@, lang@));
    }
    let mut body = String::new();
    match crate::highlight_code(&mut body, source.as_str(), lang_entry) {
        Ok(()) => {
            out.append(body.as_str());
            proof {
                let c = lang_entry->Some_0.conf->Some_0;
                assert(Seq::<char>::empty() + hl_render(hl_events_of(c, source@)) =~= hl_render(
                    hl_events_of(c, source@),
                ));
                assert(body@ == code_inner_of(langs.langs@, lang@, source@));
            }
        },
        Err(_) => {
            crate::write_code_escaped(&mut out, source.as_str());
            proof {
                assert(code_inner_of(langs.langs@, lang@, source@) == escape_seq(source@));
            }
        },
    }
    out.append("</pre></div>");
    proof {
        assert(out@ =~= code_block_html(
            lang@,
            display_of(langs.langs@, lang@),
            code_inner_of(langs.langs@, lang@, source@),
        ));
    }
    out
}

/// Which buffering context is open: none, a fenced code block, or a
/// heading. The source grammar never nests them, so one state suffices.
pub enum BufferState {
    Normal,
    InCode { lang: String, source: String },
    InHeading { level: u8, markup: String, plain: String },
}

/// The mathematical form of the buffering context.
#[verifier::ext_equal]
pub enum BufferModel {
    Normal,
    InCode { lang: Seq<char>, source: Seq<char> },
    InHeading { level: int, markup: Seq<char>, plain: Seq<char> },
}

impl View for BufferState {
    type V = BufferModel;

    open spec fn view(&self) -> BufferModel {
        match self {
            BufferState::Normal => BufferModel::Normal,
            BufferState::InCode { lang, source } => BufferModel::InCode {
                lang: lang@,
                source: source@,
            },
            BufferState::InHeading { level, markup, plain } => BufferModel::InHeading {
                level: *level as int,
                markup: markup@,
                plain: plain@,
            },
        }
    }
}

/// The rewriter's whole state: the buffering context, the two suppression
/// flags, and the table of contents collected so far.
pub struct Rewriter {
    pub state: BufferState,
    pub in_blockquote: bool,
    pub in_figcaption: bool,
    pub toc: Vec<TocEntry>,
}

/// The mathematical form of the rewriter's state.
#[verifier::ext_equal]
pub struct RewriterModel {
    pub state: BufferModel,
    pub in_blockquote: bool,
    pub in_figcaption: bool,
    pub toc: Seq<TocEntryModel>,
}

impl View for Rewriter {
    type V = RewriterModel;

    open spec fn view(&self) -> RewriterModel {
        RewriterModel {
            state: self.state@,
            in_blockquote: self.in_blockquote,
            in_figcaption: self.in_figcaption,
            toc: toc_views(self.toc@),
        }
    }
}

/// What the rewriter does with one event: pass it through, replace it by
/// an empty placeholder, or replace it by synthesized HTML.
pub enum RewriteAction {
    Keep,
    Empty,
    Html(String),
}

/// The mathematical form of an action.
#[verifier::ext_equal]
pub enum ActionModel {
    Keep,
    Empty,
    Html(Seq<char>),
}

impl View for RewriteAction {
    type V = ActionModel;

    open spec fn view(&self) -> ActionModel {
        match self {
            RewriteAction::Keep => ActionModel::Keep,
            RewriteAction::Empty => ActionModel::Empty,
            RewriteAction::Html(s) => ActionModel::Html(s@),
        }
    }
}

pub open spec fn init_model() -> RewriterModel {
    RewriterModel {
        state: BufferModel::Normal,
        in_blockquote: false,
        in_figcaption: false,
        toc: Seq::empty(),
    }
}

/// The transition table of the rewriter: the next state after one event.
pub open spec fn step_model(m: RewriterModel, ev: MdEventModel) -> RewriterModel {
    match ev {
        MdEventModel::CodeStart(lang) => RewriterModel {
            state: BufferModel::InCode { lang, source: Seq::empty() },
            ..m
        },
        MdEventModel::CodeEnd => match m.state {
            BufferModel::InCode { .. } => RewriterModel { state: BufferModel::Normal, ..m },
            _ => m,
        },
        MdEventModel::HeadingStart(level) => if !m.in_blockquote && !m.in_figcaption {
            RewriterModel {
                state: BufferModel::InHeading {
                    level,
                    markup: Seq::empty(),
                    plain: Seq::empty(),
                },
                ..m
            }
        } else {
            m
        },
        MdEventModel::HeadingEnd => match m.state {
            BufferModel::InHeading { level, markup, plain } => RewriterModel {
                state: BufferModel::Normal,
                toc: m.toc.push(TocEntryModel { level, text: markup, slug: slug_of(plain) }),
                ..m
            },
            _ => m,
        },
        MdEventModel::QuoteStart => RewriterModel { in_blockquote: true, ..m },
        MdEventModel::QuoteEnd => RewriterModel { in_blockquote: false, ..m },
        MdEventModel::InlineCode(t) => match m.state {
            BufferModel::InHeading { level, markup, plain } => RewriterModel {
                state: BufferModel::InHeading {
                    level,
                    markup: markup + "<code>"@ + t + "</code>"@,
                    plain: plain + t,
                },
                ..m
            },
            _ => m,
        },
        MdEventModel::HtmlChunk(t) => RewriterModel {
            in_figcaption: if contains_seq(t, "</figcaption>"@) {
                false
            } else if contains_seq(t, "<figcaption>"@) {
                true
            } else {
                m.in_figcaption
            },
            ..m
        },
        MdEventModel::Text(t) => match m.state {
            BufferModel::InCode { lang, source } => RewriterModel {
                state: BufferModel::InCode { lang, source: source + t },
                ..m
            },
            BufferModel::InHeading { level, markup, plain } => RewriterModel {
                state: BufferModel::InHeading {
                    level,
                    markup: markup + t,
                    plain: plain + t,
                },
                ..m
            },
            BufferModel::Normal => m,
        },
        MdEventModel::Other => m,
    }
}

/// What action one event may produce from one state. Everything is pinned
/// down except the body of a rendered code block, where the grammar
/// highlighter's outcome decides between real markup and escaped source.
pub open spec fn step_action_ok(
    m: RewriterModel,
    ev: MdEventModel,
    langs: Seq<LangEntry>,
    a: ActionModel,
) -> bool {
    match ev {
        MdEventModel::CodeStart(_) => a is Empty,
        MdEventModel::CodeEnd => match m.state {
            BufferModel::InCode { lang, source } => a == ActionModel::Html(
                code_block_html(lang, display_of(langs, lang), code_inner_of(langs, lang, source)),
            ),
            _ => a is Keep,
        },
        MdEventModel::HeadingStart(_) => if !m.in_blockquote && !m.in_figcaption {
            a is Empty
        } else {
            a is Keep
        },
        MdEventModel::HeadingEnd => match m.state {
            BufferModel::InHeading { level, markup, plain } => a == ActionModel::Html(
                heading_html(level, markup, slug_of(plain)),
            ),
            _ => a is Keep,
        },
        MdEventModel::QuoteStart => a is Keep,
        MdEventModel::QuoteEnd => a is Keep,
        MdEventModel::InlineCode(_) => match m.state {
            BufferModel::InHeading { .. } => a is Empty,
            _ => a is Keep,
        },
        MdEventModel::HtmlChunk(_) => a is Keep,
        MdEventModel::Text(_) => match m.state {
            BufferModel::Normal => a is Keep,
            _ => a is Empty,
        },
        MdEventModel::Other => a is Keep,
    }
}

impl Rewriter {
    pub fn new() -> (r: Rewriter)
        ensures
            r@ == init_model(),
    {
        let r = Rewriter {
            state: BufferState::Normal,
            in_blockquote: false,
            in_figcaption: false,
            toc: Vec::new(),
        };
        proof {
            assert(r@ =~= init_model());
        }
        r
    }

    /// One transition: updates the state as `step_model` says and returns
    /// an action that `step_action_ok` admits.
    pub fn step(&mut self, ev: &MdEvent, langs: &Langs) -> (a: RewriteAction)
        ensures
            final(self)@ == step_model(old(self)@, ev@),
            step_action_ok(old(self)@, ev@, langs.langs@, a@),
    {
        let ghost evv = ev@;
        match ev {
            MdEvent::CodeStart { lang } => {
                self.state = BufferState::InCode { lang: lang.clone(), source: String::new() };
                proof {
                    assert(self@ =~= step_model(old(self)@, evv));
                }
                RewriteAction::Empty
            },
            MdEvent::CodeEnd => {
                let mut st = BufferState::Normal;
                core::mem::swap(&mut st, &mut self.state);
                match st {
                    BufferState::InCode { lang, source } => {
                        let html = render_code_block(&lang, &source, langs);
                        proof {
                            assert(self@ =~= step_model(old(self)@, evv));
                        }
                        RewriteAction::Html(html)
                    },
                    other => {
                        self.state = other;
                        proof {
                            assert(self@ =~= step_model(old(self)@, evv));
                        }
                        RewriteAction::Keep
                    },
                }
            },
            MdEvent::HeadingStart { level } => {
                if !self.in_blockquote && !self.in_figcaption {
                    self.state = BufferState::InHeading {
                        level: *level,
                        markup: String::new(),
                        plain: String::new(),
                    };
                    proof {
                        assert(self@ =~= step_model(old(self)@, evv));
                    }
                    RewriteAction::Empty
                } else {
                    proof {
                        assert(self@ =~= step_model(old(self)@, evv));
                    }
                    RewriteAction::Keep
                }
            },
            MdEvent::HeadingEnd => {
                let mut st = BufferState::Normal;
                core::mem::swap(&mut st, &mut self.state);
                match st {
                    BufferState::InHeading { level, markup, plain } => {
                        let ghost markup_v = markup@;
                        let ghost plain_v = plain@;
                        let anchor = slugify(plain.as_str());
                        let tag = htag_str(level);
                        let mut h = String::new();
                        h.append("\n                        <");
                        h.append(tag);
                        h.append(">\n                            <a id=\"");
                        h.append(anchor.as_str());
                        h.append("\" class=\"anchor\" href=\"#");
                        h.append(anchor.as_str());
                        h.append("\">\n                                ");
                        h.append(markup.as_str());
                        h.append("\n                            </a>\n                        </");
                        h.append(tag);
                        h.append(">\n                        ");
                        self.toc.push(TocEntry { level, text: markup, slug: anchor });
                        proof {
                            assert(toc_views(self.toc@) =~= toc_views(old(self).toc@).push(
                                TocEntryModel {
                                    level: level as int,
                                    text: markup_v,
                                    slug: slug_of(plain_v),
                                },
                            ));
                            assert(self@ =~= step_model(old(self)@, evv));
                            assert(h@ =~= heading_html(level as int, markup_v, slug_of(plain_v)));
                        }
                        RewriteAction::Html(h)
                    },
                    other => {
                        self.state = other;
                        proof {
                            assert(self@ =~= step_model(old(self)@, evv));
                        }
                        RewriteAction::Keep
                    },
                }
            },
            MdEvent::QuoteStart => {
                self.in_blockquote = true;
                proof {
                    assert(self@ =~= step_model(old(self)@, evv));
                }
                RewriteAction::Keep
            },
            MdEvent::QuoteEnd => {
                self.in_blockquote = false;
                proof {
                    assert(self@ =~= step_model(old(self)@, evv));
                }
                RewriteAction::Keep
            },
            MdEvent::InlineCode { text } => {
                match &mut self.state {
                    BufferState::InHeading { markup, plain, .. } => {
                        markup.append("<code>");
                        markup.append(text.as_str());
                        markup.append("</code>");
                        plain.append(text.as_str());
                        proof {
                            assert(self@ =~= step_model(old(self)@, evv));
                        }
                        RewriteAction::Empty
                    },
                    _ => {
                        proof {
                            assert(self@ =~= step_model(old(self)@, evv));
                        }
                        RewriteAction::Keep
                    },
                }
            },
            MdEvent::HtmlChunk { text } => {
                let cs = str_chars(text.as_str());
                let open_needle = str_chars("<figcaption>");
                let close_needle = str_chars("</figcaption>");
                if contains_chars(&cs, &open_needle) {
                    self.in_figcaption = true;
                }
                if contains_chars(&cs, &close_needle) {
                    self.in_figcaption = false;
                }
                proof {
                    assert(self@ =~= step_model(old(self)@, evv));
                }
                RewriteAction::Keep
            },
            MdEvent::Text { text } => {
                match &mut self.state {
                    BufferState::InCode { source, .. } => {
                        source.append(text.as_str());
                        proof {
                            assert(self@ =~= step_model(old(self)@, evv));
                        }
                        RewriteAction::Empty
                    },
                    BufferState::InHeading { markup, plain, .. } => {
                        markup.append(text.as_str());
                        plain.append(text.as_str());
                        proof {
                            assert(self@ =~= step_model(old(self)@, evv));
                        }
                        RewriteAction::Empty
                    },
                    BufferState::Normal => {
                        proof {
                            assert(self@ =~= step_model(old(self)@, evv));
                        }
                        RewriteAction::Keep
                    },
                }
            },
            MdEvent::Other => {
                proof {
                    assert(self@ =~= step_model(old(self)@, evv));
                }
                RewriteAction::Keep
            },
        }
    }
}

/// The rewriter's state after a whole classified event sequence, starting
/// from `m`.
pub open spec fn run_from(m: RewriterModel, infos: Seq<MdEventModel>) -> RewriterModel
    decreases infos.len(),
{
    if infos.len() == 0 {
        m
    } else {
        step_model(run_from(m, infos.drop_last()), infos.last())
    }
}

/// The rewriter's state after a whole classified event sequence.
pub open spec fn run_model(infos: Seq<MdEventModel>) -> RewriterModel {
    run_from(init_model(), infos)
}

proof fn lemma_no_heading_end_toc(m: RewriterModel, infos: Seq<MdEventModel>)
    requires
        forall|i: int| 0 <= i < infos.len() ==> !((#[trigger] infos[i]) is HeadingEnd),
    ensures
        run_from(m, infos).toc == m.toc,
    decreases infos.len(),
{
    if infos.len() > 0 {
        assert(forall|i: int| 0 <= i < infos.drop_last().len() ==> #[trigger] infos.drop_last()[i]
            == infos[i]);
        lemma_no_heading_end_toc(m, infos.drop_last());
    }
}

/// TOC emptiness law: a document whose event stream holds no heading end
/// leaves the table of contents empty, so `generate_toc` yields absence,
/// not an empty container.
pub proof fn lemma_toc_empty(infos: Seq<MdEventModel>)
    requires
        forall|i: int| 0 <= i < infos.len() ==> !((#[trigger] infos[i]) is HeadingEnd),
    ensures
        run_model(infos).toc == Seq::<TocEntryModel>::empty(),
{
    lemma_no_heading_end_toc(init_model(), infos);
}

/// Suppression law, one step: while a blockquote or figcaption region is
/// open and nothing is buffered, a heading start opens no buffer, a
/// heading end appends no TOC row, and text and inline code pass through:
/// the state is unchanged and every admitted action keeps the event.
pub proof fn lemma_suppressed_heading_step(m: RewriterModel, ev: MdEventModel)
    requires
        m.state is Normal,
        m.in_blockquote || m.in_figcaption,
        ev is HeadingStart || ev is HeadingEnd || ev is Text || ev is InlineCode || ev is Other,
    ensures
        step_model(m, ev) == m,
        forall|langs: Seq<LangEntry>, a: ActionModel|
            #[trigger] step_action_ok(m, ev, langs, a) ==> a is Keep,
{
    assert(step_model(m, ev) =~= m);
}

/// Suppression law, run form: a whole heading construct (start, content
/// events, end) inside a blockquote or figcaption region leaves the
/// rewriter exactly as it was — in particular it contributes no TOC row.
pub proof fn lemma_suppressed_heading_run(m: RewriterModel, infos: Seq<MdEventModel>)
    requires
        m.state is Normal,
        m.in_blockquote || m.in_figcaption,
        forall|i: int| 0 <= i < infos.len() ==> (#[trigger] infos[i]) is HeadingStart || infos[i]
            is HeadingEnd || infos[i] is Text || infos[i] is InlineCode || infos[i] is Other,
    ensures
        run_from(m, infos) == m,
    decreases infos.len(),
{
    if infos.len() > 0 {
        assert(forall|i: int| 0 <= i < infos.drop_last().len() ==> #[trigger] infos.drop_last()[i]
            == infos[i]);
        lemma_suppressed_heading_run(m, infos.drop_last());
        lemma_suppressed_heading_step(m, infos.last());
    }
}

/// Heading-anchor law: closing a heading appends exactly one TOC row
/// whose slug derives from the accumulated plain text, and the
/// synthesized element admitted for that step is the heading skeleton
/// whose anchor id and href carry that same slug.
pub proof fn lemma_heading_anchor(
    m: RewriterModel,
    level: int,
    markup: Seq<char>,
    plain: Seq<char>,
)
    requires
        m.state == (BufferModel::InHeading { level, markup, plain }),
    ensures
        step_model(m, MdEventModel::HeadingEnd).toc == m.toc.push(
            TocEntryModel { level, text: markup, slug: slug_of(plain) },
        ),
        forall|langs: Seq<LangEntry>, a: ActionModel|
            #[trigger] step_action_ok(m, MdEventModel::HeadingEnd, langs, a) ==> a
                == ActionModel::Html(heading_html(level, markup, slug_of(plain))),
{
}

/// Inline code inside a heading contributes its literal content to the
/// plain text the slug derives from, while the visible markup wraps it in
/// a `<code>` element; neither side is escaped.
pub proof fn lemma_heading_inline_code(
    m: RewriterModel,
    level: int,
    markup: Seq<char>,
    plain: Seq<char>,
    t: Seq<char>,
)
    requires
        m.state == (BufferModel::InHeading { level, markup, plain }),
    ensures
        step_model(m, MdEventModel::InlineCode(t)).state == (BufferModel::InHeading {
            level,
            markup: markup + "<code>"@ + t + "</code>"@,
            plain: plain + t,
        }),
{
}

/// Walks the event stream once: steps the rewriter over each event's
/// classification, passes events through or replaces them, and serializes
/// the rewritten stream into `output`. The rows appended to `toc` are
/// exactly what the rewriter's transition table collects over the
/// stream's classifications.
pub fn process_stream<'a>(
    events: Vec<(Event<'a>, MdEvent)>,
    langs: &Langs,
    toc: &mut Vec<TocEntry>,
    output: &mut Vec<u8>,
)
    ensures
        toc_views(final(toc)@) == toc_views(old(toc)@) + run_model(pair_infos(events@)).toc,
        utf8_decode_of(final(output)@) is Some,
{
    let ghost infos = pair_infos(events@);
    let mut rw = Rewriter::new();
    let mut out_events: Vec<Event<'a>> = Vec::new();
    proof {
        assert(infos.take(0) =~= Seq::<MdEventModel>::empty());
        assert(rw@ =~= run_model(infos.take(0)));
    }
    let mut i: usize = 0;
    while i < events.len()
        invariant
            i <= events.len(),
            infos == pair_infos(events@),
            infos.len() == events@.len(),
            rw@ == run_model(infos.take(i as int)),
        decreases events.len() - i,
    {
        proof {
            assert(infos.take(i + 1).drop_last() =~= infos.take(i as int));
            assert(infos.take(i + 1).last() == infos[i as int]);
            assert(infos[i as int] == events@[i as int].1@);
        }
        let act = rw.step(&events[i].1, langs);
        match act {
            RewriteAction::Keep => {
                out_events.push(clone_event(&events[i].0));
            },
            RewriteAction::Empty => {
                out_events.push(empty_text_event());
            },
            RewriteAction::Html(s) => {
                out_events.push(html_event(s));
            },
        }
        i = i + 1;
    }
    proof {
        assert(infos.take(infos.len() as int) =~= infos);
    }
    toc.append(&mut rw.toc);
    proof {
        assert(toc_views(toc@) =~= toc_views(old(toc)@) + run_model(infos).toc);
    }
    let bytes = write_html_events(out_events);
    *output = bytes;
}

/// Like [`process_stream`], but parses the input itself and first
/// extracts the document's frontmatter: the frontmatter code block never
/// reaches the output stream, and its values are handed back through
/// `frontmatter_out`. The TOC rows are the rewriter run over the input's
/// classified stream.
pub fn process_stream_with_frontmatter(
    input: &str,
    langs: &Langs,
    toc: &mut Vec<TocEntry>,
    output: &mut Vec<u8>,
    frontmatter_out: &mut Option<OwnedFrontmatter>,
)
    ensures
        toc_views(final(toc)@) == toc_views(old(toc)@) + run_model(md_infos_of(input@, true)).toc,
        fm_views(*final(frontmatter_out)) == frontmatter_of(input@),
        utf8_decode_of(final(output)@) is Some,
{
    let (events, fm) = parse_markdown(input, true);
    *frontmatter_out = fm;
    process_stream(events, langs, toc, output);
}

} // verus!
