//! Encoding of text values as quoted SQL literals.
use vstd::prelude::*;

verus! {

/// The text that stands for one character inside a quoted literal: a quote is
/// doubled, every other character stands for itself.
pub open spec fn escaped_char(c: char) -> Seq<char> {
    if c == '\'' {
        seq!['\'', '\'']
    } else {
        seq![c]
    }
}

/// The body of a quoted literal that holds `s`.
pub open spec fn escaped(s: Seq<char>) -> Seq<char>
    decreases s.len(),
{
    if s.len() == 0 {
        Seq::empty()
    } else {
        escaped_char(s[0]) + escaped(s.drop_first())
    }
}

/// The quoted literal that holds `s`.
pub open spec fn quoted(s: Seq<char>) -> Seq<char> {
    seq!['\''] + escaped(s) + seq!['\'']
}

/// Reads a literal body up to its closing quote, undoing the doubling of
/// quotes: the value read and the text after the closing quote, or `None`
/// where the text ends first.
pub open spec fn read_literal_body(t: Seq<char>) -> Option<(Seq<char>, Seq<char>)>
    decreases t.len(),
{
    if t.len() == 0 {
        None
    } else if t[0] == '\'' {
        if t.len() >= 2 && t[1] == '\'' {
            match read_literal_body(t.subrange(2, t.len() as int)) {
                Some(p) => Some((seq!['\''] + p.0, p.1)),
                None => None,
            }
        } else {
            Some((Seq::empty(), t.drop_first()))
        }
    } else {
        match read_literal_body(t.drop_first()) {
            Some(p) => Some((seq![t[0]] + p.0, p.1)),
            None => None,
        }
    }
}

/// Reads a quoted literal at the start of `t`, as SQL does.
pub open spec fn read_literal(t: Seq<char>) -> Option<(Seq<char>, Seq<char>)> {
    if t.len() > 0 && t[0] == '\'' {
        read_literal_body(t.drop_first())
    } else {
        None
    }
}

/// Escaping one more character appends that character's escaped text.
pub proof fn lemma_escaped_push(s: Seq<char>, c: char)
    ensures
        escaped(s.push(c)) == escaped(s) + escaped_char(c),
    decreases s.len(),
{
    if s.len() == 0 {
        assert(s.push(c).drop_first() =~= Seq::<char>::empty());
        assert(s =~= Seq::<char>::empty());
        assert(escaped(Seq::<char>::empty()) == Seq::<char>::empty());
        assert(escaped(s.push(c)) =~= escaped(s) + escaped_char(c));
    } else {
        assert(s.push(c).drop_first() =~= s.drop_first().push(c));
        lemma_escaped_push(s.drop_first(), c);
        assert(escaped(s.push(c)) =~= escaped(s) + escaped_char(c));
    }
}

proof fn lemma_body_round_trip(s: Seq<char>, rest: Seq<char>)
    requires
        rest.len() == 0 || rest[0] != '\'',
    ensures
        read_literal_body(escaped(s) + seq!['\''] + rest) == Some((s, rest)),
    decreases s.len(),
{
    let t = escaped(s) + seq!['\''] + rest;
    if s.len() == 0 {
        assert(t =~= seq!['\''] + rest);
        assert(t.drop_first() =~= rest);
    } else {
        let tail = escaped(s.drop_first()) + seq!['\''] + rest;
        lemma_body_round_trip(s.drop_first(), rest);
        if s[0] == '\'' {
            assert(t =~= seq!['\'', '\''] + tail);
            assert(t.subrange(2, t.len() as int) =~= tail);
        } else {
            assert(t =~= seq![s[0]] + tail);
            assert(t.drop_first() =~= tail);
        }
        assert(s =~= seq![s[0]] + s.drop_first());
    }
}

/// A value that is written as a quoted literal and read back is the same
/// value, whatever quotes, backslashes or delimiters it holds, provided the
/// literal is not directly followed by another quote.
pub proof fn lemma_literal_round_trip(s: Seq<char>, rest: Seq<char>)
    requires
        rest.len() == 0 || rest[0] != '\'',
    ensures
        read_literal(quoted(s) + rest) == Some((s, rest)),
{
    let t = quoted(s) + rest;
    assert(t.drop_first() =~= escaped(s) + seq!['\''] + rest);
    lemma_body_round_trip(s, rest);
}

/// Relies on `String::push`: appends the character to the end of the string.
#[verifier::external_body]
pub(crate) fn push_char(s: &mut String, c: char)
    ensures
        final(s)@ == old(s)@.push(c),
{
    s.push(c);
}

/// Encodes `value` as the body of a quoted SQL literal by doubling every quote.
pub fn escape_sql_string(value: &str) -> (r: String)
    ensures
        r@ == escaped(value@),
{
    broadcast use vstd::string::group_string_axioms;

    let mut r = String::new();
    for c in it: value.chars()
        invariant
            it.seq() == value@,
            r@ == escaped(value@.subrange(0, it.index() as int)),
    {
        proof {
            lemma_escaped_push(it.seq().subrange(0, it.index() as int), c);
        }
        if c == '\'' {
            push_char(&mut r, '\'');
            push_char(&mut r, '\'');
        } else {
            push_char(&mut r, c);
        }
        assert(it.seq().subrange(0, it.index() + 1) =~= it.seq().subrange(
            0,
            it.index() as int,
        ).push(c));
    }
    assert(value@.subrange(0, value@.len() as int) =~= value@);
    r
}

} // verus!
