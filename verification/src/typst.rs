//! Rendering of Typst source text for waybills.

use vstd::prelude::*;

verus! {

/// What one character of the input becomes inside a Typst string literal.
pub open spec fn escape_char(c: char) -> Seq<char> {
    if c == '\\' {
        seq!['\\', '\\']
    } else if c == '"' {
        seq!['\\', '"']
    } else {
        seq![c]
    }
}

/// The escaped form of a whole text: each character escaped in turn.
pub open spec fn spec_escape_typst(s: Seq<char>) -> Seq<char>
    decreases s.len(),
{
    if s.len() == 0 {
        seq![]
    } else {
        spec_escape_typst(s.drop_last()) + escape_char(s.last())
    }
}

/// Text that can stand between the quotes of a Typst string literal: it
/// holds no bare double quote, and each backslash starts one of the two
/// escapes `\\` or `\"`.
pub open spec fn is_quoted_body(t: Seq<char>) -> bool
    decreases t.len(),
{
    if t.len() == 0 {
        true
    } else if t[0] == '"' {
        false
    } else if t[0] == '\\' {
        t.len() >= 2 && (t[1] == '\\' || t[1] == '"') && is_quoted_body(t.skip(2))
    } else {
        is_quoted_body(t.skip(1))
    }
}

/// What Typst reads back from the body of a string literal that uses only
/// the escapes `\\` and `\"`.
pub open spec fn unquote_body(t: Seq<char>) -> Seq<char>
    decreases t.len(),
{
    if t.len() == 0 {
        seq![]
    } else if t[0] == '\\' && t.len() >= 2 {
        seq![t[1]] + unquote_body(t.skip(2))
    } else {
        seq![t[0]] + unquote_body(t.skip(1))
    }
}

/// Whether `body`, put between the quotes of a Typst string literal, makes
/// a literal that stays whole and that Typst reads as `value`.
pub open spec fn is_literal_body_of(body: Seq<char>, value: Seq<char>) -> bool {
    is_quoted_body(body) && unquote_body(body) == value
}

/// Every occurrence of `c` in `s` replaced by `by`.
pub open spec fn replace_char(s: Seq<char>, c: char, by: Seq<char>) -> Seq<char>
    decreases s.len(),
{
    if s.len() == 0 {
        seq![]
    } else {
        replace_char(s.drop_last(), c, by) + (if s.last() == c { by } else { seq![s.last()] })
    }
}

proof fn lemma_escape_concat(a: Seq<char>, b: Seq<char>)
    ensures
        spec_escape_typst(a + b) == spec_escape_typst(a) + spec_escape_typst(b),
    decreases b.len(),
{
    if b.len() == 0 {
        assert(a + b == a);
    } else {
        lemma_escape_concat(a, b.drop_last());
        assert((a + b).drop_last() == a + b.drop_last());
    }
}

proof fn lemma_replace_concat(a: Seq<char>, b: Seq<char>, c: char, by: Seq<char>)
    ensures
        replace_char(a + b, c, by) == replace_char(a, c, by) + replace_char(b, c, by),
    decreases b.len(),
{
    if b.len() == 0 {
        assert(a + b == a);
    } else {
        lemma_replace_concat(a, b.drop_last(), c, by);
        assert((a + b).drop_last() == a + b.drop_last());
    }
}

proof fn lemma_escape_single(c: char)
    ensures
        spec_escape_typst(seq![c]) == escape_char(c),
{
    let one = seq![c];
    let empty = Seq::<char>::empty();
    assert(one.drop_last() == empty);
    assert(one.last() == c);
    assert(spec_escape_typst(empty) == empty);
    assert(empty + escape_char(c) == escape_char(c));
}

/// Escaping then reading back gives the original text, and the escaped text
/// never closes the literal early: it is a well-formed literal body.
pub proof fn lemma_escape_roundtrip(s: Seq<char>)
    ensures
        is_quoted_body(spec_escape_typst(s)),
        unquote_body(spec_escape_typst(s)) == s,
    decreases s.len(),
{
    if s.len() > 0 {
        let rest = s.skip(1);
        assert(s == seq![s[0]] + rest);
        lemma_escape_concat(seq![s[0]], rest);
        lemma_escape_single(s[0]);
        let e = spec_escape_typst(s);
        let k = escape_char(s[0]).len() as int;
        assert(e == escape_char(s[0]) + spec_escape_typst(rest));
        assert(e.skip(k) == spec_escape_typst(rest));
        lemma_escape_roundtrip(rest);
    }
}

/// Two texts with the same escaped form are the same text.
pub proof fn lemma_escape_injective(a: Seq<char>, b: Seq<char>)
    requires
        spec_escape_typst(a) == spec_escape_typst(b),
    ensures
        a == b,
{
    lemma_escape_roundtrip(a);
    lemma_escape_roundtrip(b);
}

/// Escaping is the same as first doubling every backslash and then putting
/// a backslash before every double quote.
pub proof fn lemma_escape_is_two_replacements(s: Seq<char>)
    ensures
        spec_escape_typst(s) == replace_char(
            replace_char(s, '\\', seq!['\\', '\\']),
            '"',
            seq!['\\', '"'],
        ),
    decreases s.len(),
{
    if s.len() > 0 {
        let init = s.drop_last();
        let c = s.last();
        lemma_escape_is_two_replacements(init);
        let once = replace_char(init, '\\', seq!['\\', '\\']);
        let piece = if c == '\\' { seq!['\\', '\\'] } else { seq![c] };
        assert(replace_char(s, '\\', seq!['\\', '\\']) == once + piece);
        lemma_replace_concat(once, piece, '"', seq!['\\', '"']);
        let empty = Seq::<char>::empty();
        if c == '\\' {
            assert(piece.drop_last() == seq!['\\']);
            assert(seq!['\\'].drop_last() == empty);
            assert(replace_char(empty, '"', seq!['\\', '"']) == empty);
            assert(replace_char(seq!['\\'], '"', seq!['\\', '"']) == empty + seq!['\\']);
            assert(replace_char(piece, '"', seq!['\\', '"']) == seq!['\\'] + seq!['\\']);
        } else {
            assert(piece.drop_last() == empty);
            assert(replace_char(empty, '"', seq!['\\', '"']) == empty);
            assert(empty + (if c == '"' { seq!['\\', '"'] } else { seq![c] }) == escape_char(c));
        }
        assert(s.drop_last() == init);
    }
}

/// Appends one character to a string.
#[verifier::external_body]
fn push_char(s: &mut String, c: char)
    ensures
        final(s)@ == old(s)@.push(c),
{
    s.push(c);
}

/// Escapes backslashes and double quotes so that the text can stand inside
/// a Typst string literal.
pub fn escape_typst(s: &str) -> (res: String)
    ensures
        res@ == spec_escape_typst(s@),
{
    broadcast use vstd::string::group_string_axioms;
    let mut res = String::new();
    for c in it: s.chars()
        invariant
            it.seq() == s@,
            res@ == spec_escape_typst(it.seq().take(it.index())),
    {
        proof {
            assert(it.seq().take(it.index() + 1).drop_last() == it.seq().take(it.index()));
        }
        if c == '\\' {
            push_char(&mut res, '\\');
            push_char(&mut res, '\\');
        } else if c == '"' {
            push_char(&mut res, '\\');
            push_char(&mut res, '"');
        } else {
            push_char(&mut res, c);
        }
    }
    assert(s@.take(s@.len() as int) == s@);
    res
}

} // verus!
