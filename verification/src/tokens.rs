use vstd::prelude::*;

use crate::reader::{find_from, lemma_find_from_bounds, list_end, spec_next_token, token_end};
use crate::scalars::{chop, sep_ok};
use crate::strutil::is_digit;

verus! {

/// A plain token: nonempty, not quote- or bracket-led, and free of commas.
pub open spec fn is_atom_token(t: Seq<char>) -> bool {
    &&& t.len() > 0
    &&& t[0] != '"'
    &&& t[0] != '['
    &&& forall|i: int| 0 <= i < t.len() ==> t[i] != ','
}

/// A quoted token: quotes at both ends and none in between.
pub open spec fn is_quoted_token(t: Seq<char>) -> bool {
    &&& t.len() >= 2
    &&& t[0] == '"'
    &&& t[t.len() - 1] == '"'
    &&& forall|i: int| 1 <= i < t.len() - 1 ==> t[i] != '"'
}

/// Bracket depth of a text: opening brackets minus closing ones.
pub open spec fn bracket_depth(t: Seq<char>) -> int
    decreases t.len(),
{
    if t.len() == 0 {
        0
    } else {
        bracket_depth(t.drop_last()) + (if t.last() == '[' {
            1int
        } else if t.last() == ']' {
            -1int
        } else {
            0int
        })
    }
}

/// A bracketed token: the leading bracket is balanced exactly by the final
/// character and by nothing before it.
pub open spec fn is_list_token(t: Seq<char>) -> bool {
    &&& t.len() >= 2
    &&& t[0] == '['
    &&& t[t.len() - 1] == ']'
    &&& bracket_depth(t) == 0
    &&& forall|i: int| 1 <= i < t.len() ==> bracket_depth(#[trigger] t.take(i)) >= 1
}

/// Text that can stand between brackets: balanced, never dipping below
/// the surrounding level.
pub open spec fn list_inner_ok(t: Seq<char>) -> bool {
    &&& bracket_depth(t) == 0
    &&& forall|i: int| 0 <= i <= t.len() ==> bracket_depth(#[trigger] t.take(i)) >= 0
}

pub proof fn lemma_bracket_depth_concat(a: Seq<char>, b: Seq<char>)
    ensures
        bracket_depth(a + b) == bracket_depth(a) + bracket_depth(b),
    decreases b.len(),
{
    if b.len() == 0 {
        assert(a + b =~= a);
    } else {
        lemma_bracket_depth_concat(a, b.drop_last());
        assert((a + b).drop_last() =~= a + b.drop_last());
        assert((a + b).last() == b.last());
    }
}

/// Text without brackets stands between brackets.
pub proof fn lemma_no_brackets_inner_ok(t: Seq<char>)
    requires
        forall|i: int| 0 <= i < t.len() ==> t[i] != '[' && t[i] != ']',
    ensures
        list_inner_ok(t),
    decreases t.len(),
{
    if t.len() > 0 {
        lemma_no_brackets_inner_ok(t.drop_last());
        assert forall|i: int| 0 <= i <= t.len() implies bracket_depth(#[trigger] t.take(i)) >= 0 by {
            if i < t.len() {
                assert(t.take(i) =~= t.drop_last().take(i));
                assert(bracket_depth(t.drop_last().take(i)) >= 0);
            } else {
                assert(t.take(i) =~= t);
                assert(t.drop_last() =~= t.take(t.len() - 1));
            }
        }
    }
}

/// Concatenation keeps the between-brackets property.
pub proof fn lemma_inner_ok_concat(a: Seq<char>, b: Seq<char>)
    requires
        list_inner_ok(a),
        list_inner_ok(b),
    ensures
        list_inner_ok(a + b),
{
    lemma_bracket_depth_concat(a, b);
    assert forall|i: int| 0 <= i <= (a + b).len() implies bracket_depth(#[trigger] (a + b).take(i)) >= 0 by {
        if i <= a.len() {
            assert((a + b).take(i) =~= a.take(i));
        } else {
            assert((a + b).take(i) =~= a + b.take(i - a.len()));
            lemma_bracket_depth_concat(a, b.take(i - a.len()));
        }
    }
}

/// A whole bracketed token stands between brackets of an outer list.
pub proof fn lemma_list_token_inner_ok(t: Seq<char>)
    requires
        is_list_token(t),
    ensures
        list_inner_ok(t),
{
    assert forall|i: int| 0 <= i <= t.len() implies bracket_depth(#[trigger] t.take(i)) >= 0 by {
        if i == 0 {
            assert(t.take(0) =~= Seq::<char>::empty());
        } else if i == t.len() {
            assert(t.take(i) =~= t);
        }
    }
}

/// Wrapping well-formed inner text in brackets makes a bracketed token.
pub proof fn lemma_wrap_list(inner: Seq<char>)
    requires
        list_inner_ok(inner),
    ensures
        is_list_token(seq!['['] + inner + seq![']']),
        (seq!['['] + inner + seq![']']).subrange(1, (seq!['['] + inner + seq![']']).len() - 1) == inner,
{
    let t = seq!['['] + inner + seq![']'];
    assert(t.len() == inner.len() + 2);
    assert(t[0] == '[');
    assert(t[t.len() - 1] == ']');
    assert(bracket_depth(seq!['[']) == 1) by {
        assert(seq!['['].drop_last() =~= Seq::<char>::empty());
        assert(bracket_depth(Seq::<char>::empty()) == 0);
    }
    lemma_bracket_depth_concat(seq!['['] + inner, seq![']']);
    lemma_bracket_depth_concat(seq!['['], inner);
    assert(bracket_depth(seq![']']) == -1) by {
        assert(seq![']'].drop_last() =~= Seq::<char>::empty());
        assert(bracket_depth(Seq::<char>::empty()) == 0);
    }
    assert(bracket_depth(t) == 0);
    assert forall|i: int| 1 <= i < t.len() implies bracket_depth(#[trigger] t.take(i)) >= 1 by {
        assert(t.take(i) =~= seq!['['] + inner.take(i - 1));
        lemma_bracket_depth_concat(seq!['['], inner.take(i - 1));
    }
    assert(t.subrange(1, t.len() - 1) =~= inner);
}

/// Exact landing point of `find_from` on a known pattern.
pub proof fn lemma_find_from_exact(s: Seq<char>, i: int, n: int, c: char)
    requires
        0 <= i <= n <= s.len(),
        forall|j: int| i <= j < n ==> s[j] != c,
        n < s.len() ==> s[n] == c,
    ensures
        find_from(s, i, c) == n,
    decreases n - i,
{
    if i < n {
        lemma_find_from_exact(s, i + 1, n, c);
    }
}

/// Tokenizing a plain token followed by a separator yields the token.
pub proof fn lemma_next_token_atom(tok: Seq<char>, rest: Seq<char>)
    requires
        is_atom_token(tok),
        sep_ok(rest),
    ensures
        spec_next_token(tok + rest) == Some((tok, chop(rest))),
{
    let s = tok + rest;
    assert(s[0] == tok[0]);
    assert forall|j: int| 0 <= j < tok.len() implies s[j] != ',' by {
        assert(s[j] == tok[j]);
    }
    lemma_find_from_exact(s, 0, tok.len() as int, ',');
    assert(token_end(s) == tok.len());
    assert(s.take(tok.len() as int) =~= tok);
    if rest.len() == 0 {
        assert(s.skip(tok.len() as int) =~= chop(rest));
    } else {
        assert(s.skip(tok.len() as int + 1) =~= chop(rest));
    }
}

/// Tokenizing a quoted token followed by a separator yields the token.
pub proof fn lemma_next_token_quoted(tok: Seq<char>, rest: Seq<char>)
    requires
        is_quoted_token(tok),
        sep_ok(rest),
    ensures
        spec_next_token(tok + rest) == Some((tok, chop(rest))),
{
    let s = tok + rest;
    assert(s[0] == tok[0]);
    assert forall|j: int| 1 <= j < tok.len() - 1 implies s[j] != '"' by {
        assert(s[j] == tok[j]);
    }
    assert(s[tok.len() - 1] == tok[tok.len() - 1]);
    lemma_find_from_exact(s, 1, tok.len() - 1, '"');
    assert(token_end(s) == tok.len());
    assert(s.take(tok.len() as int) =~= tok);
    if rest.len() == 0 {
        assert(s.skip(tok.len() as int) =~= chop(rest));
    } else {
        assert(s[tok.len() as int] == rest[0]);
        assert(s.skip(tok.len() as int + 1) =~= chop(rest));
    }
}

/// The bracket scan of a bracketed token inside a longer text stops at the
/// token's end.
proof fn lemma_list_scan(tok: Seq<char>, rest: Seq<char>, i: int)
    requires
        is_list_token(tok),
        0 <= i < tok.len(),
        i >= 1 ==> bracket_depth(tok.take(i)) >= 1,
    ensures
        list_end(tok + rest, i, bracket_depth(tok.take(i))) == tok.len(),
    decreases tok.len() - i,
{
    let s = tok + rest;
    let depth = bracket_depth(tok.take(i));
    assert(s[i] == tok[i]);
    assert(tok.take(i + 1).drop_last() =~= tok.take(i));
    assert(tok.take(i + 1).last() == tok[i]);
    let d2 = bracket_depth(tok.take(i + 1));
    assert(d2 == depth + (if tok[i] == '[' { 1int } else if tok[i] == ']' { -1int } else { 0int }));
    if i + 1 == tok.len() {
        assert(tok.take(i + 1) =~= tok);
        assert(d2 == 0);
    } else {
        assert(d2 >= 1);
        lemma_list_scan(tok, rest, i + 1);
    }
}

/// Tokenizing a bracketed token followed by a separator yields the token.
pub proof fn lemma_next_token_list(tok: Seq<char>, rest: Seq<char>)
    requires
        is_list_token(tok),
        sep_ok(rest),
    ensures
        spec_next_token(tok + rest) == Some((tok, chop(rest))),
{
    let s = tok + rest;
    assert(s[0] == tok[0]);
    assert(tok.take(0) =~= Seq::<char>::empty());
    lemma_list_scan(tok, rest, 0);
    assert(token_end(s) == tok.len());
    assert(s.take(tok.len() as int) =~= tok);
    if rest.len() == 0 {
        assert(s.skip(tok.len() as int) =~= chop(rest));
    } else {
        assert(s.skip(tok.len() as int + 1) =~= chop(rest));
    }
}

/// A token spelled with capitals, digits and underscores only.
pub open spec fn clean_atom(t: Seq<char>) -> bool {
    &&& t.len() > 0
    &&& forall|i: int| 0 <= i < t.len() ==> (is_digit(#[trigger] t[i]) || ('A' <= t[i] && t[i] <= 'Z')
        || t[i] == '_')
}

/// Such a token is a plain atom and holds no delimiter characters.
pub proof fn lemma_clean_atom_is_atom(t: Seq<char>)
    requires
        clean_atom(t),
    ensures
        is_atom_token(t),
        forall|i: int| 0 <= i < t.len() ==> t[i] != '[' && t[i] != ']' && t[i] != '"'
            && t[i] != '*' && t[i] != '/',
{
}

/// Text free of brackets.
pub open spec fn no_brackets(t: Seq<char>) -> bool {
    forall|i: int| 0 <= i < t.len() ==> t[i] != '[' && t[i] != ']'
}

pub proof fn lemma_no_brackets_concat(a: Seq<char>, b: Seq<char>)
    requires
        no_brackets(a),
        no_brackets(b),
    ensures
        no_brackets(a + b),
{
    assert forall|i: int| 0 <= i < (a + b).len() implies (a + b)[i] != '[' && (a + b)[i] != ']' by {
        if i < a.len() {
            assert((a + b)[i] == a[i]);
        } else {
            assert((a + b)[i] == b[i - a.len()]);
        }
    }
}

/// Digit runs hold no delimiter characters.
pub proof fn lemma_digits_clean(s: Seq<char>)
    requires
        forall|i: int| 0 <= i < s.len() ==> is_digit(#[trigger] s[i]),
    ensures
        forall|i: int| 0 <= i < s.len() ==> s[i] != ',' && s[i] != '[' && s[i] != ']'
            && s[i] != '"' && s[i] != '*' && s[i] != '/',
{
}

} // verus!
