//! Minimal HTML-entity escaping for `<`, `>` and `&`.

use vstd::prelude::*;

verus! {

/// What one character becomes in escaped output.
pub open spec fn escape_char(c: char) -> Seq<char> {
    if c == '<' {
        "&lt;"@
    } else if c == '>' {
        "&gt;"@
    } else if c == '&' {
        "&amp;"@
    } else {
        seq![c]
    }
}

/// The whole escaped form of a character sequence.
pub open spec fn escape_seq(s: Seq<char>) -> Seq<char>
    decreases s.len(),
{
    if s.len() == 0 {
        Seq::empty()
    } else {
        escape_char(s[0]) + escape_seq(s.drop_first())
    }
}

pub proof fn lemma_escape_concat(a: Seq<char>, b: Seq<char>)
    ensures
        escape_seq(a + b) == escape_seq(a) + escape_seq(b),
    decreases a.len(),
{
    if a.len() == 0 {
        assert(a + b =~= b);
        assert(escape_seq(a) + escape_seq(b) =~= escape_seq(b));
    } else {
        assert((a + b).drop_first() =~= a.drop_first() + b);
        lemma_escape_concat(a.drop_first(), b);
        assert(escape_seq(a + b) =~= escape_seq(a) + escape_seq(b));
    }
}

pub proof fn lemma_escape_snoc(s: Seq<char>, c: char)
    ensures
        escape_seq(s.push(c)) == escape_seq(s) + escape_char(c),
{
    assert(s.push(c) =~= s + seq![c]);
    lemma_escape_concat(s, seq![c]);
    assert(seq![c].drop_first() =~= Seq::<char>::empty());
    assert(escape_seq(Seq::<char>::empty()) =~= Seq::<char>::empty());
    assert(escape_seq(seq![c]) == escape_char(c) + escape_seq(seq![c].drop_first()));
    assert(escape_char(c) + Seq::<char>::empty() =~= escape_char(c));
}

/// Standard entity decoding for the three entities the escaper emits;
/// any other character is copied.
pub open spec fn unescape_seq(s: Seq<char>) -> Seq<char>
    decreases s.len(),
{
    if s.len() == 0 {
        Seq::empty()
    } else if s.len() >= 4 && s.subrange(0, 4) == "&lt;"@ {
        seq!['<'] + unescape_seq(s.skip(4))
    } else if s.len() >= 4 && s.subrange(0, 4) == "&gt;"@ {
        seq!['>'] + unescape_seq(s.skip(4))
    } else if s.len() >= 5 && s.subrange(0, 5) == "&amp;"@ {
        seq!['&'] + unescape_seq(s.skip(5))
    } else {
        seq![s[0]] + unescape_seq(s.skip(1))
    }
}

/// Escaping law, first half: escaping round-trips under standard entity
/// decoding.
pub proof fn lemma_escape_round_trip(s: Seq<char>)
    ensures
        unescape_seq(escape_seq(s)) == s,
    decreases s.len(),
{
    reveal_strlit("&lt;");
    reveal_strlit("&gt;");
    reveal_strlit("&amp;");
    if s.len() == 0 {
    } else {
        let c = s[0];
        let rest = s.drop_first();
        lemma_escape_round_trip(rest);
        let t = escape_seq(s);
        assert(t == escape_char(c) + escape_seq(rest));
        if c == '<' {
            assert(t.subrange(0, 4) =~= "&lt;"@);
            assert(t.skip(4) =~= escape_seq(rest));
            assert(unescape_seq(t) =~= s);
        } else if c == '>' {
            assert(t.subrange(0, 4) =~= "&gt;"@);
            assert(t.subrange(0, 4)[1] == 'g');
            assert(t.subrange(0, 4) != "&lt;"@);
            assert(t.skip(4) =~= escape_seq(rest));
            assert(unescape_seq(t) =~= s);
        } else if c == '&' {
            assert(t.subrange(0, 5) =~= "&amp;"@);
            assert(t.subrange(0, 5)[1] == 'a');
            if t.len() >= 4 {
                assert(t.subrange(0, 4)[1] == 'a');
                assert(t.subrange(0, 4) != "&lt;"@);
                assert(t.subrange(0, 4) != "&gt;"@);
            }
            assert(t.skip(5) =~= escape_seq(rest));
            assert(unescape_seq(t) =~= s);
        } else {
            assert(t[0] == c);
            if t.len() >= 4 {
                assert(t.subrange(0, 4)[0] == c);
                assert(t.subrange(0, 4) != "&lt;"@);
                assert(t.subrange(0, 4) != "&gt;"@);
            }
            if t.len() >= 5 {
                assert(t.subrange(0, 5)[0] == c);
                assert(t.subrange(0, 5) != "&amp;"@);
            }
            assert(t.skip(1) =~= escape_seq(rest));
            assert(unescape_seq(t) =~= s);
        }
    }
}

/// Escaping law, second half: escaped output holds no literal `<` or `>`
/// at all.
pub proof fn lemma_escape_no_angle(s: Seq<char>)
    ensures
        forall|i: int| 0 <= i < escape_seq(s).len() ==> #[trigger] escape_seq(s)[i] != '<'
            && escape_seq(s)[i] != '>',
    decreases s.len(),
{
    reveal_strlit("&lt;");
    reveal_strlit("&gt;");
    reveal_strlit("&amp;");
    if s.len() == 0 {
    } else {
        let c = s[0];
        let rest = s.drop_first();
        lemma_escape_no_angle(rest);
        let p = escape_char(c);
        assert forall|i: int| 0 <= i < escape_seq(s).len() implies #[trigger] escape_seq(s)[i]
            != '<' && escape_seq(s)[i] != '>' by {
            if i < p.len() {
                assert(escape_seq(s)[i] == p[i]);
            } else {
                assert(escape_seq(s)[i] == escape_seq(rest)[i - p.len()]);
            }
        }
    }
}

/// One of the three entity sequences begins at position `i` of `t`.
pub open spec fn entity_at(t: Seq<char>, i: int) -> bool {
    (i + 4 <= t.len() && t.subrange(i, i + 4) == "&lt;"@) || (i + 4 <= t.len() && t.subrange(
        i,
        i + 4,
    ) == "&gt;"@) || (i + 5 <= t.len() && t.subrange(i, i + 5) == "&amp;"@)
}

/// Escaping law, third half: every literal `&` in escaped output starts
/// one of the three fixed entity sequences.
pub proof fn lemma_escape_amp_entity(s: Seq<char>)
    ensures
        forall|i: int| 0 <= i < escape_seq(s).len() && #[trigger] escape_seq(s)[i] == '&'
            ==> entity_at(escape_seq(s), i),
    decreases s.len(),
{
    reveal_strlit("&lt;");
    reveal_strlit("&gt;");
    reveal_strlit("&amp;");
    if s.len() == 0 {
    } else {
        let c = s[0];
        let rest = s.drop_first();
        lemma_escape_amp_entity(rest);
        let p = escape_char(c);
        let t = escape_seq(s);
        let r = escape_seq(rest);
        assert(t == p + r);
        assert forall|i: int| 0 <= i < t.len() && #[trigger] t[i] == '&' implies entity_at(
            t,
            i,
        ) by {
            if i < p.len() {
                if c == '<' {
                    assert(i == 0);
                    assert(t.subrange(0, 4) =~= "&lt;"@);
                } else if c == '>' {
                    assert(i == 0);
                    assert(t.subrange(0, 4) =~= "&gt;"@);
                } else if c == '&' {
                    assert(i == 0);
                    assert(t.subrange(0, 5) =~= "&amp;"@);
                } else {
                    assert(t[i] == c);
                    assert(false);
                }
            } else {
                let j = i - p.len();
                assert(t[i] == r[j]);
                assert(entity_at(r, j));
                if j + 4 <= r.len() && r.subrange(j, j + 4) == "&lt;"@ {
                    assert(t.subrange(i, i + 4) =~= r.subrange(j, j + 4));
                } else if j + 4 <= r.len() && r.subrange(j, j + 4) == "&gt;"@ {
                    assert(t.subrange(i, i + 4) =~= r.subrange(j, j + 4));
                } else {
                    assert(t.subrange(i, i + 5) =~= r.subrange(j, j + 5));
                }
            }
        }
    }
}

/// Appends the escaped form of `input` to `out`.
pub fn escape_chars(input: &Vec<char>, out: &mut Vec<char>)
    ensures
        final(out)@ == old(out)@ + escape_seq(input@),
{
    proof {
        assert(input@.take(0) =~= Seq::<char>::empty());
        assert(out@ + escape_seq(input@.take(0)) =~= out@);
    }
    let mut i: usize = 0;
    while i < input.len()
        invariant
            i <= input.len(),
            out@ == old(out)@ + escape_seq(input@.take(i as int)),
        decreases input.len() - i,
    {
        let c = input[i];
        proof {
            assert(input@.take(i as int).push(input@[i as int]) =~= input@.take(i + 1));
            lemma_escape_snoc(input@.take(i as int), input@[i as int]);
        }
        if c == '<' {
            out.push('&');
            out.push('l');
            out.push('t');
            out.push(';');
            proof {
                reveal_strlit("&lt;");
                assert(out@ =~= old(out)@ + escape_seq(input@.take(i + 1)));
            }
        } else if c == '>' {
            out.push('&');
            out.push('g');
            out.push('t');
            out.push(';');
            proof {
                reveal_strlit("&gt;");
                assert(out@ =~= old(out)@ + escape_seq(input@.take(i + 1)));
            }
        } else if c == '&' {
            out.push('&');
            out.push('a');
            out.push('m');
            out.push('p');
            out.push(';');
            proof {
                reveal_strlit("&amp;");
                assert(out@ =~= old(out)@ + escape_seq(input@.take(i + 1)));
            }
        } else {
            out.push(c);
            proof {
                assert(escape_char(input@[i as int]) =~= seq![input@[i as int]]);
                assert(out@ =~= old(out)@ + escape_seq(input@.take(i + 1)));
            }
        }
        i = i + 1;
    }
    proof {
        assert(input@.take(input@.len() as int) =~= input@);
    }
}

} // verus!
