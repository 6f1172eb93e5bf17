//! Nested inline-markup rendering for grammar-highlighter event streams.
//!
//! The external tokenizer classifies byte ranges of a code snippet into
//! lexical categories and hands back a flat stream of source slices,
//! category starts and category ends. The renderer turns that stream into
//! nested `<i class=hhN>` markup, escaping every source slice, and rejects
//! a stream whose starts and ends are not balanced.

use vstd::prelude::*;
use crate::escape::{escape_seq, escape_chars};
use crate::numfmt::{dec_of, push_usize};
use crate::strutil::{str_chars, push_str_chars};
use tree_sitter_highlight::{Highlighter, HighlightEvent, HighlightConfiguration};

verus! {

/// One event of the external grammar highlighter, reduced to plain values:
/// a slice of the source text, the start of a highlight category, or the
/// end of the innermost open category.
pub enum HlEvent {
    Source { text: String },
    Start { category: usize },
    End,
}

/// The mathematical form of a highlighter event.
pub enum HlEventModel {
    Source(Seq<char>),
    Start(int),
    End,
}

impl View for HlEvent {
    type V = HlEventModel;

    open spec fn view(&self) -> HlEventModel {
        match self {
            HlEvent::Source { text } => HlEventModel::Source(text@),
            HlEvent::Start { category } => HlEventModel::Start(*category as int),
            HlEvent::End => HlEventModel::End,
        }
    }
}

pub open spec fn hl_views(s: Seq<HlEvent>) -> Seq<HlEventModel> {
    s.map_values(|e: HlEvent| e@)
}

/// The opening tag for one category: its class carries the category number,
/// so the emitted markup keeps the tokenizer's numeric identity.
pub open spec fn hl_open_tag(category: int) -> Seq<char> {
    "<i class=hh"@ + dec_of(category) + ">"@
}

pub open spec fn hl_close_tag() -> Seq<char> {
    "</i>"@
}

/// What one event contributes to the rendered markup.
pub open spec fn hl_piece(ev: HlEventModel) -> Seq<char> {
    match ev {
        HlEventModel::Source(t) => escape_seq(t),
        HlEventModel::Start(c) => hl_open_tag(c),
        HlEventModel::End => hl_close_tag(),
    }
}

/// The rendered markup of a whole event stream.
pub open spec fn hl_render(evs: Seq<HlEventModel>) -> Seq<char>
    decreases evs.len(),
{
    if evs.len() == 0 {
        Seq::empty()
    } else {
        hl_render(evs.drop_last()) + hl_piece(evs.last())
    }
}

/// How one event changes the nesting depth of open categories.
pub open spec fn hl_delta(ev: HlEventModel) -> int {
    match ev {
        HlEventModel::Source(_) => 0,
        HlEventModel::Start(_) => 1,
        HlEventModel::End => -1,
    }
}

/// The nesting depth of open categories after a whole event stream.
pub open spec fn hl_depth(evs: Seq<HlEventModel>) -> int
    decreases evs.len(),
{
    if evs.len() == 0 {
        0
    } else {
        hl_depth(evs.drop_last()) + hl_delta(evs.last())
    }
}

/// A stream is balanced when no prefix closes more categories than it has
/// opened, and the whole stream closes every category it opens.
pub open spec fn hl_balanced(evs: Seq<HlEventModel>) -> bool {
    hl_depth(evs) == 0 && forall|j: int| 0 <= j <= evs.len() ==> hl_depth(#[trigger] evs.take(j)) >= 0
}

/// The number of category starts in a stream.
pub open spec fn opens_of(evs: Seq<HlEventModel>) -> nat
    decreases evs.len(),
{
    if evs.len() == 0 {
        0
    } else {
        opens_of(evs.drop_last()) + (if evs.last() is Start {
            1nat
        } else {
            0nat
        })
    }
}

/// The number of category ends in a stream.
pub open spec fn closes_of(evs: Seq<HlEventModel>) -> nat
    decreases evs.len(),
{
    if evs.len() == 0 {
        0
    } else {
        closes_of(evs.drop_last()) + (if evs.last() is End {
            1nat
        } else {
            0nat
        })
    }
}

proof fn lemma_depth_opens_closes(evs: Seq<HlEventModel>)
    ensures
        hl_depth(evs) == opens_of(evs) - closes_of(evs),
    decreases evs.len(),
{
    if evs.len() > 0 {
        lemma_depth_opens_closes(evs.drop_last());
    }
}

/// Span-nesting law, stream form: a balanced stream never closes a
/// category it has not opened — in every prefix the ends stay within the
/// starts — and at end of input exactly as many categories have been
/// closed as opened, so no tag stays open.
pub proof fn lemma_span_nesting(evs: Seq<HlEventModel>)
    requires
        hl_balanced(evs),
    ensures
        opens_of(evs) == closes_of(evs),
        forall|j: int| 0 <= j <= evs.len() ==> closes_of(#[trigger] evs.take(j)) <= opens_of(
            evs.take(j),
        ),
{
    lemma_depth_opens_closes(evs);
    assert(evs.take(evs.len() as int) =~= evs);
    assert forall|j: int| 0 <= j <= evs.len() implies closes_of(#[trigger] evs.take(j))
        <= opens_of(evs.take(j)) by {
        lemma_depth_opens_closes(evs.take(j));
        assert(hl_depth(evs.take(j)) >= 0);
    }
}

/// How many times `c` occurs in `s`.
pub open spec fn count_char(s: Seq<char>, c: char) -> nat
    decreases s.len(),
{
    if s.len() == 0 {
        0
    } else {
        count_char(s.drop_last(), c) + (if s.last() == c {
            1nat
        } else {
            0nat
        })
    }
}

proof fn lemma_count_char_concat(a: Seq<char>, b: Seq<char>, c: char)
    ensures
        count_char(a + b, c) == count_char(a, c) + count_char(b, c),
    decreases b.len(),
{
    if b.len() == 0 {
        assert(a + b =~= a);
    } else {
        assert((a + b).drop_last() =~= a + b.drop_last());
        lemma_count_char_concat(a, b.drop_last(), c);
    }
}

proof fn lemma_count_char_zero(s: Seq<char>, c: char)
    requires
        forall|i: int| 0 <= i < s.len() ==> s[i] != c,
    ensures
        count_char(s, c) == 0,
    decreases s.len(),
{
    if s.len() > 0 {
        lemma_count_char_zero(s.drop_last(), c);
    }
}

/// Span-nesting law, rendered form: the markup of a stream holds exactly
/// one `<` per tag — one for each category start and one for each
/// category end. Escaped source text contributes none, so together with
/// the stream form, balanced input yields markup whose opening and
/// closing tags pair up exactly.
pub proof fn lemma_render_tag_count(evs: Seq<HlEventModel>)
    ensures
        count_char(hl_render(evs), '<') == opens_of(evs) + closes_of(evs),
    decreases evs.len(),
{
    reveal_strlit("<i class=hh");
    reveal_strlit("i class=hh");
    reveal_strlit(">");
    reveal_strlit("</i>");
    reveal_strlit("/i>");
    if evs.len() == 0 {
    } else {
        lemma_render_tag_count(evs.drop_last());
        let r = hl_render(evs.drop_last());
        let p = hl_piece(evs.last());
        lemma_count_char_concat(r, p, '<');
        match evs.last() {
            HlEventModel::Source(t) => {
                crate::escape::lemma_escape_no_angle(t);
                lemma_count_char_zero(escape_seq(t), '<');
            },
            HlEventModel::Start(cat) => {
                assert("<i class=hh"@ =~= seq!['<'] + "i class=hh"@);
                lemma_count_char_concat(seq!['<'], "i class=hh"@, '<');
                assert(count_char(seq!['<'], '<') == 1) by {
                    assert(seq!['<'].drop_last() =~= Seq::<char>::empty());
                    assert(count_char(Seq::<char>::empty(), '<') == 0);
                    assert(seq!['<'].last() == '<');
                }
                lemma_count_char_zero("i class=hh"@, '<');
                crate::numfmt::lemma_dec_of_no_angle(cat);
                lemma_count_char_zero(dec_of(cat), '<');
                lemma_count_char_zero(">"@, '<');
                lemma_count_char_concat("<i class=hh"@, dec_of(cat), '<');
                lemma_count_char_concat("<i class=hh"@ + dec_of(cat), ">"@, '<');
            },
            HlEventModel::End => {
                assert("</i>"@ =~= seq!['<'] + "/i>"@);
                lemma_count_char_concat(seq!['<'], "/i>"@, '<');
                assert(count_char(seq!['<'], '<') == 1) by {
                    assert(seq!['<'].drop_last() =~= Seq::<char>::empty());
                    assert(count_char(Seq::<char>::empty(), '<') == 0);
                    assert(seq!['<'].last() == '<');
                }
                lemma_count_char_zero("/i>"@, '<');
            },
        }
    }
}

proof fn lemma_hl_render_snoc(evs: Seq<HlEventModel>, ev: HlEventModel)
    ensures
        hl_render(evs.push(ev)) == hl_render(evs) + hl_piece(ev),
        hl_depth(evs.push(ev)) == hl_depth(evs) + hl_delta(ev),
{
    assert(evs.push(ev).drop_last() =~= evs);
    assert(evs.push(ev).last() == ev);
}

/// Renders a highlighter event stream into nested, escaped markup.
///
/// Succeeds exactly on balanced streams; an unmatched category end, or a
/// category left open at end of input, is a contract violation of the
/// external tokenizer and is reported as an error instead of being repaired.
pub fn render_hl_events(events: &Vec<HlEvent>) -> (r: Result<Vec<char>, crate::HighlightError>)
    ensures
        r is Ok <==> hl_balanced(hl_views(events@)),
        r matches Ok(v) ==> v@ == hl_render(hl_views(events@)),
        r matches Err(e) ==> e is CouldNotBuildHighlighter,
{
    let ghost evs = hl_views(events@);
    let mut out: Vec<char> = Vec::new();
    let mut depth: usize = 0;
    let mut i: usize = 0;
    proof {
        assert(evs.take(0) =~= Seq::<HlEventModel>::empty());
    }
    while i < events.len()
        invariant
            i <= events.len(),
            evs == hl_views(events@),
            evs.len() == events@.len(),
            depth <= i,
            depth as int == hl_depth(evs.take(i as int)),
            forall|j: int| 0 <= j <= i ==> hl_depth(#[trigger] evs.take(j)) >= 0,
            out@ == hl_render(evs.take(i as int)),
        decreases events.len() - i,
    {
        proof {
            assert(evs.take(i as int).push(evs[i as int]) =~= evs.take(i + 1));
            lemma_hl_render_snoc(evs.take(i as int), evs[i as int]);
        }
        match &events[i] {
            HlEvent::Source { text } => {
                let cs = str_chars(text.as_str());
                escape_chars(&cs, &mut out);
                proof {
                    assert(out@ =~= hl_render(evs.take(i + 1)));
                }
            },
            HlEvent::Start { category } => {
                push_str_chars(&mut out, "<i class=hh");
                push_usize(&mut out, *category);
                push_str_chars(&mut out, ">");
                depth = depth + 1;
                proof {
                    assert(out@ =~= hl_render(evs.take(i + 1)));
                }
            },
            HlEvent::End => {
                if depth == 0 {
                    proof {
                        assert(hl_depth(evs.take(i + 1)) == -1);
                        assert(!hl_balanced(evs));
                    }
                    return Err(crate::HighlightError::could_not_build("unbalanced highlight events"));
                }
                depth = depth - 1;
                push_str_chars(&mut out, "</i>");
                proof {
                    assert(out@ =~= hl_render(evs.take(i + 1)));
                }
            },
        }
        i = i + 1;
    }
    proof {
        assert(evs.take(evs.len() as int) =~= evs);
    }
    if depth != 0 {
        return Err(crate::HighlightError::could_not_build("highlight category left open"));
    }
    Ok(out)
}

/// The event stream the grammar highlighter yields for one configuration
/// and one source text: with no cancellation flag and no injected
/// languages, highlighting is a function of these two alone.
pub uninterp spec fn hl_events_of(conf: HighlightConfiguration, s: Seq<char>) -> Seq<
    HlEventModel,
>;

/// Whether the grammar highlighter succeeds on one configuration and one
/// source text: under the same fixed call shape, success too is a
/// function of these two alone.
pub uninterp spec fn hl_ok_of(conf: HighlightConfiguration, s: Seq<char>) -> bool;

/// Relies on `tree_sitter_highlight::Highlighter::highlight`: runs the
/// grammar highlighter over the source and converts each event into an
/// [`HlEvent`], taking the source slice that a `Source` event's byte range
/// denotes. Any error of the highlighter, and a byte range that does not
/// fall on character boundaries, comes back as `Err`; whether that
/// happens, and on success which stream comes back, are the two things
/// [`hl_ok_of`] and [`hl_events_of`] name.
#[verifier::external_body]
pub fn run_highlighter(conf: &HighlightConfiguration, source: &str) -> (r: Result<
    Vec<HlEvent>,
    String,
>)
    ensures
        r is Ok <==> hl_ok_of(*conf, source@),
        r matches Ok(v) ==> hl_views(v@) == hl_events_of(*conf, source@),
{
    let mut hl = Highlighter::new();
    let events = hl.highlight(conf, source.as_bytes(), None, |_| None).map_err(
        |e| format!("{:?}", e),
    )?;
    let mut out = Vec::new();
    for ev in events {
        out.push(match ev.map_err(|e| format!("{:?}", e))? {
            HighlightEvent::Source { start, end } => HlEvent::Source {
                text: source.get(start..end).ok_or_else(|| format!("bad range"))?.to_string(),
            },
            HighlightEvent::HighlightStart(h) => HlEvent::Start { category: h.0 },
            HighlightEvent::HighlightEnd => HlEvent::End,
        });
    }
    Ok(out)
}

} // verus!
