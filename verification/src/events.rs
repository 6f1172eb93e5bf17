//! The boundary to the markdown tokenizer.
//!
//! The tokenizer's events are opaque here: the rewriter never looks inside
//! one. Instead, [`parse_markdown`] hands each event out paired with its
//! classification — the one thing the rewriter cares about per event kind,
//! as plain values — and the rewriter decides from that classification
//! alone whether the original event passes through, is suppressed, or is
//! replaced by synthesized HTML. The classified stream of an input is
//! named by [`md_infos_of`], so the contracts downstream speak of the
//! input itself.

use vstd::prelude::*;
use pulldown_cmark::{CodeBlockKind, Event, Options, Parser, Tag};
use pulldown_cmark_frontmatter::FrontmatterExtractor;

verus! {

#[verifier::external_type_specification]
#[verifier::external_body]
pub struct ExEvent<'a>(Event<'a>);

#[verifier::external_type_specification]
#[verifier::external_body]
pub struct ExOptions(Options);

/// A code block extracted from frontmatter, as owned values.
pub struct OwnedCodeBlock {
    pub language: Option<String>,
    pub source: String,
}

/// Document frontmatter, as owned values.
pub struct OwnedFrontmatter {
    pub title: Option<String>,
    pub code_block: Option<OwnedCodeBlock>,
}

/// The mathematical form of an extracted code block.
#[verifier::ext_equal]
pub struct OwnedCodeBlockModel {
    pub language: Option<Seq<char>>,
    pub source: Seq<char>,
}

/// The mathematical form of extracted frontmatter.
#[verifier::ext_equal]
pub struct OwnedFrontmatterModel {
    pub title: Option<Seq<char>>,
    pub code_block: Option<OwnedCodeBlockModel>,
}

impl View for OwnedCodeBlock {
    type V = OwnedCodeBlockModel;

    open spec fn view(&self) -> OwnedCodeBlockModel {
        OwnedCodeBlockModel {
            language: match self.language {
                Option::Some(l) => Option::Some(l@),
                Option::None => Option::None,
            },
            source: self.source@,
        }
    }
}

impl View for OwnedFrontmatter {
    type V = OwnedFrontmatterModel;

    open spec fn view(&self) -> OwnedFrontmatterModel {
        OwnedFrontmatterModel {
            title: match self.title {
                Option::Some(t) => Option::Some(t@),
                Option::None => Option::None,
            },
            code_block: match self.code_block {
                Option::Some(c) => Option::Some(c@),
                Option::None => Option::None,
            },
        }
    }
}

pub open spec fn fm_views(o: Option<OwnedFrontmatter>) -> Option<OwnedFrontmatterModel> {
    match o {
        Option::Some(f) => Option::Some(f@),
        Option::None => Option::None,
    }
}

/// What the rewriter reads from one tokenizer event.
pub enum MdEvent {
    CodeStart { lang: String },
    CodeEnd,
    HeadingStart { level: u8 },
    HeadingEnd,
    QuoteStart,
    QuoteEnd,
    InlineCode { text: String },
    HtmlChunk { text: String },
    Text { text: String },
    Other,
}

/// The mathematical form of a classified event.
pub enum MdEventModel {
    CodeStart(Seq<char>),
    CodeEnd,
    HeadingStart(int),
    HeadingEnd,
    QuoteStart,
    QuoteEnd,
    InlineCode(Seq<char>),
    HtmlChunk(Seq<char>),
    Text(Seq<char>),
    Other,
}

impl View for MdEvent {
    type V = MdEventModel;

    open spec fn view(&self) -> MdEventModel {
        match self {
            MdEvent::CodeStart { lang } => MdEventModel::CodeStart(lang@),
            MdEvent::CodeEnd => MdEventModel::CodeEnd,
            MdEvent::HeadingStart { level } => MdEventModel::HeadingStart(*level as int),
            MdEvent::HeadingEnd => MdEventModel::HeadingEnd,
            MdEvent::QuoteStart => MdEventModel::QuoteStart,
            MdEvent::QuoteEnd => MdEventModel::QuoteEnd,
            MdEvent::InlineCode { text } => MdEventModel::InlineCode(text@),
            MdEvent::HtmlChunk { text } => MdEventModel::HtmlChunk(text@),
            MdEvent::Text { text } => MdEventModel::Text(text@),
            MdEvent::Other => MdEventModel::Other,
        }
    }
}

/// The classifications of a pair sequence, in order.
pub open spec fn pair_infos<'a>(s: Seq<(Event<'a>, MdEvent)>) -> Seq<MdEventModel> {
    s.map_values(|p: (Event<'a>, MdEvent)| p.1@)
}

/// The classified event stream that parsing an input yields, with or
/// without frontmatter extraction. Parsing is a function of the input
/// text alone.
pub uninterp spec fn md_infos_of(s: Seq<char>, extract_frontmatter: bool) -> Seq<MdEventModel>;

/// The frontmatter that extraction finds in an input, if any. Extraction
/// is a function of the input text alone.
pub uninterp spec fn frontmatter_of(s: Seq<char>) -> Option<OwnedFrontmatterModel>;

/// Relies on `pulldown_cmark`'s event model: reads the one field of each
/// event kind the rewriter cares about, and nothing else. Only a fenced
/// code block counts as a code block here, as in the rewriter's contract;
/// an indented one passes through. A `HeadingLevel` is 1 through 6 by its
/// definition in `pulldown_cmark`. Used by `parse_markdown` to pair each
/// event with its classification.
#[verifier::external_body]
fn classify(ev: &Event<'_>) -> (r: MdEvent)
    ensures
        r matches MdEvent::HeadingStart { level } ==> 1 <= level <= 6,
{
    match ev {
        Event::Start(Tag::CodeBlock(CodeBlockKind::Fenced(l))) => MdEvent::CodeStart {
            lang: l.to_string(),
        },
        Event::End(Tag::CodeBlock(CodeBlockKind::Fenced(_))) => MdEvent::CodeEnd,
        Event::Start(Tag::Heading(lv, _, _)) => MdEvent::HeadingStart { level: *lv as u8 },
        Event::End(Tag::Heading(..)) => MdEvent::HeadingEnd,
        Event::Start(Tag::BlockQuote) => MdEvent::QuoteStart,
        Event::End(Tag::BlockQuote) => MdEvent::QuoteEnd,
        Event::Code(c) => MdEvent::InlineCode { text: c.to_string() },
        Event::Html(h) => MdEvent::HtmlChunk { text: h.to_string() },
        Event::Text(t) => MdEvent::Text { text: t.to_string() },
        _ => MdEvent::Other,
    }
}

/// Relies on `pulldown_cmark::Options`: the one parser option set this
/// crate renders with (tables, footnotes, strikethrough, tasklists).
/// `parse_markdown` always parses under exactly this set, which is what
/// lets [`md_infos_of`] and [`frontmatter_of`] take the input text alone.
#[verifier::external_body]
pub fn options() -> (r: Options) {
    let mut options = Options::empty();
    options.insert(Options::ENABLE_TABLES);
    options.insert(Options::ENABLE_FOOTNOTES);
    options.insert(Options::ENABLE_STRIKETHROUGH);
    options.insert(Options::ENABLE_TASKLISTS);
    options
}

/// Relies on `pulldown_cmark::Parser` under the fixed [`options`] set
/// and, when asked for frontmatter, on
/// `pulldown_cmark_frontmatter::FrontmatterExtractor`: returns the
/// document's events, each paired with its `classify` classification;
/// with `extract_frontmatter` the frontmatter code block is removed from
/// the stream and handed back as owned values. With the option set fixed,
/// parsing and extraction are deterministic in the input text, which the
/// two names state.
#[verifier::external_body]
pub fn parse_markdown<'a>(input: &'a str, extract_frontmatter: bool) -> (r: (
    Vec<(Event<'a>, MdEvent)>,
    Option<OwnedFrontmatter>,
))
    ensures
        pair_infos(r.0@) == md_infos_of(input@, extract_frontmatter),
        fm_views(r.1) == if extract_frontmatter {
            frontmatter_of(input@)
        } else {
            Option::<OwnedFrontmatterModel>::None
        },
{
    let parser = Parser::new_ext(input, options());
    if extract_frontmatter {
        let mut fp = FrontmatterExtractor::new(parser);
        fp.extract_buffered();
        let fm = fp.frontmatter.clone().map(|f| OwnedFrontmatter {
            title: f.title,
            code_block: f.code_block.map(|c| OwnedCodeBlock {
                language: c.language.map(|l| l.to_string()),
                source: c.source.to_string(),
            }),
        });
        (fp.map(|ev| { let c = classify(&ev); (ev, c) }).collect(), fm)
    } else {
        (parser.map(|ev| { let c = classify(&ev); (ev, c) }).collect(), None)
    }
}

/// The characters a byte buffer decodes to when it is valid UTF-8, and
/// absence when it is not.
pub uninterp spec fn utf8_decode_of(b: Seq<u8>) -> Option<Seq<char>>;

/// Relies on `Event`'s `Clone` impl: the clone is the same event value,
/// used to pass an event through unchanged.
#[verifier::external_body]
pub fn clone_event<'a>(ev: &Event<'a>) -> (r: Event<'a>)
    ensures
        r == *ev,
{
    ev.clone()
}

/// Relies on `Event::Text` with an empty string: the placeholder that a
/// buffered event leaves in the stream; it serializes to nothing.
#[verifier::external_body]
pub fn empty_text_event() -> (r: Event<'static>) {
    Event::Text("".into())
}

/// Relies on `Event::Html`: carries synthesized markup, which the
/// serializer emits verbatim.
#[verifier::external_body]
pub fn html_event(s: String) -> (r: Event<'static>) {
    Event::Html(s.into())
}

/// Relies on `pulldown_cmark::html::write_html`: serializes the event
/// stream into the buffer. Writing into a `Vec<u8>` does not fail, and
/// the serializer writes only whole strings, so the buffer is valid
/// UTF-8.
#[verifier::external_body]
pub fn write_html_events(events: Vec<Event<'_>>) -> (r: Vec<u8>)
    ensures
        utf8_decode_of(r@) is Some,
{
    let mut out: Vec<u8> = Vec::new();
    pulldown_cmark::html::write_html(std::io::Cursor::new(&mut out), events.into_iter()).unwrap();
    out
}

/// Relies on `String::from_utf8`: decoding succeeds exactly on valid
/// UTF-8 and is a function of the bytes alone; an invalid buffer comes
/// back as an error message.
#[verifier::external_body]
pub fn string_from_utf8(v: Vec<u8>) -> (r: Result<String, String>)
    ensures
        r is Ok <==> utf8_decode_of(v@) is Some,
        r matches Ok(s) ==> utf8_decode_of(v@) == Option::Some(s@),
{
    String::from_utf8(v).map_err(|e| e.to_string())
}

} // verus!
