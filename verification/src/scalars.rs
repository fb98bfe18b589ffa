use vstd::prelude::*;

use crate::decimal::{pow10, Decimal};
use crate::error::Error;
use crate::reader::EsoLogReaderLine;
use crate::strutil::{digit_char, digit_val, digits_val, is_digit, spec_digits_of,
    lemma_digits_of_roundtrip, lemma_digits_val_monotone, lemma_spec_digits_of_digits};

verus! {

/// Index of the first non-digit character at or after `i`.
pub open spec fn digits_end(s: Seq<char>, i: int) -> int
    decreases s.len() - i,
{
    if i < 0 || i >= s.len() {
        s.len() as int
    } else if !is_digit(s[i]) {
        i
    } else {
        digits_end(s, i + 1)
    }
}

pub proof fn lemma_digits_end_bounds(s: Seq<char>, i: int)
    requires
        0 <= i <= s.len(),
    ensures
        i <= digits_end(s, i) <= s.len(),
        digits_end(s, i) < s.len() ==> !is_digit(s[digits_end(s, i)]),
        forall|j: int| i <= j < digits_end(s, i) ==> is_digit(#[trigger] s[j]),
    decreases s.len() - i,
{
    if i < s.len() && is_digit(s[i]) {
        lemma_digits_end_bounds(s, i + 1);
    }
}

/// A digit run of known extent pins down `digits_end`.
pub proof fn lemma_digits_end_exact(s: Seq<char>, i: int, n: int)
    requires
        0 <= i <= n <= s.len(),
        forall|j: int| i <= j < n ==> is_digit(#[trigger] s[j]),
        n < s.len() ==> !is_digit(s[n]),
    ensures
        digits_end(s, i) == n,
    decreases n - i,
{
    if i < n {
        lemma_digits_end_exact(s, i + 1, n);
    }
}

/// Rest of the input after a value and one separator: the leading comma of
/// `rest` is consumed together with the value before it.
pub open spec fn chop(rest: Seq<char>) -> Seq<char> {
    if rest.len() == 0 {
        rest
    } else {
        rest.skip(1)
    }
}

/// Pulling a following text inside a comma-separated concatenation.
pub proof fn lemma_shift_rest(d: Seq<char>, v: Seq<char>, s: Seq<char>, rest: Seq<char>)
    requires
        v + rest == s,
    ensures
        (d + (seq![','] + v)) + rest == d + (seq![','] + s),
{
    assert((d + (seq![','] + v)) + rest =~= d + (seq![','] + (v + rest)));
}

/// A leading comma is one separator: it satisfies the separator shape and
/// chopping it yields the tail.
pub proof fn lemma_comma_chop(s: Seq<char>)
    ensures
        sep_ok(seq![','] + s),
        chop(seq![','] + s) == s,
{
    assert((seq![','] + s)[0] == ',');
    assert((seq![','] + s).skip(1) =~= s);
}

/// Regrouping step for a serializer proof: a buffer extended by a value
/// and a comma, then a suffix, reads as the buffer plus one joined text.
pub proof fn lemma_regroup_step(b: Seq<char>, d: Seq<char>, bn: Seq<char>, u: Seq<char>, outv: Seq<char>)
    requires
        bn == (b + d) + seq![','],
        outv == bn + u,
    ensures
        outv == b + (d + (seq![','] + u)),
{
    assert(((b + d) + seq![',']) + u =~= b + (d + (seq![','] + u)));
}

/// Regrouping step for a comma-led block: comma, value, then a suffix.
pub proof fn lemma_regroup_comma_first(b: Seq<char>, d: Seq<char>, bn: Seq<char>, u: Seq<char>, outv: Seq<char>)
    requires
        bn == (b + seq![',']) + d,
        outv == bn + u,
    ensures
        outv == b + (seq![','] + (d + u)),
{
    assert(((b + seq![',']) + d) + u =~= b + (seq![','] + (d + u)));
}

/// Head step: the first block has no separator before it.
pub proof fn lemma_regroup_head(b: Seq<char>, d: Seq<char>, bn: Seq<char>, u: Seq<char>, outv: Seq<char>)
    requires
        bn == b + d,
        outv == bn + u,
    ensures
        outv == b + (d + u),
{
    assert((b + d) + u =~= b + (d + u));
}

/// Tail step: the final comma-led block closes the text.
pub proof fn lemma_regroup_last(b: Seq<char>, d: Seq<char>, outv: Seq<char>)
    requires
        outv == (b + seq![',']) + d,
    ensures
        outv == b + (seq![','] + d),
{
    assert((b + seq![',']) + d =~= b + (seq![','] + d));
}

/// What may follow a dumped value: nothing, or a comma and more fields.
pub open spec fn sep_ok(rest: Seq<char>) -> bool {
    rest.len() == 0 || rest[0] == ','
}

/// Parses a run of decimal digits bounded by `max`, then demands a comma
/// or the end of the input, and consumes the comma.
pub open spec fn spec_parse_uint(s: Seq<char>, max: nat) -> Result<(nat, Seq<char>), Error> {
    let e = digits_end(s, 0);
    if e == 0 {
        Err(Error::ParseIntError)
    } else if e < s.len() && s[e] != ',' {
        Err(Error::ParseIntError)
    } else if digits_val(s.take(e)) > max {
        Err(Error::ParseIntError)
    } else if e < s.len() {
        Ok((digits_val(s.take(e)), s.skip(e + 1)))
    } else {
        Ok((digits_val(s.take(e)), s.skip(e)))
    }
}

/// Decimal spelling of an unsigned value, shortest form.
pub open spec fn spec_dump_uint(v: nat) -> Seq<char> {
    spec_digits_of(v)
}

/// Parsing what was dumped yields the value and consumes one separator.
pub proof fn lemma_parse_uint_roundtrip(v: nat, max: nat, rest: Seq<char>)
    requires
        v <= max,
        sep_ok(rest),
    ensures
        spec_parse_uint(spec_dump_uint(v) + rest, max) == Ok::<_, Error>((v, chop(rest))),
{
    let d = spec_digits_of(v);
    let s = d + rest;
    lemma_spec_digits_of_digits(v);
    lemma_digits_of_roundtrip(v);
    assert forall|j: int| 0 <= j < d.len() implies is_digit(#[trigger] s[j]) by {
        assert(s[j] == d[j]);
    }
    if d.len() < s.len() {
        assert(s[d.len() as int] == rest[0]);
        assert(!is_digit(s[d.len() as int]));
    }
    lemma_digits_end_exact(s, 0, d.len() as int);
    assert(s.take(d.len() as int) =~= d);
    if rest.len() == 0 {
        assert(s.skip(d.len() as int) =~= chop(rest));
        assert(digits_end(s, 0) == s.len());
    } else {
        assert(s[d.len() as int] == ',');
        assert(s.skip(d.len() as int + 1) =~= chop(rest));
    }
}

/// A digit run is bounded by ten to its length.
pub proof fn lemma_digits_val_bound(s: Seq<char>)
    requires
        forall|i: int| 0 <= i < s.len() ==> is_digit(#[trigger] s[i]),
    ensures
        digits_val(s) < pow10(s.len()),
    decreases s.len(),
{
    if s.len() == 0 {
    } else {
        assert(forall|i: int| 0 <= i < s.drop_last().len() ==> is_digit(#[trigger] s.drop_last()[i]));
        lemma_digits_val_bound(s.drop_last());
        assert(is_digit(s.last()));
        assert(digit_val(s.last()) <= 9);
        assert(digits_val(s.drop_last()) * 10 + 9 < pow10((s.len() - 1) as nat) * 10) by (nonlinear_arith)
            requires digits_val(s.drop_last()) < pow10((s.len() - 1) as nat)
        {}
        assert(pow10(s.len() as nat) == 10 * pow10((s.len() - 1) as nat));
        assert(digits_val(s) == digits_val(s.drop_last()) * 10 + digit_val(s.last()));
    }
}

impl<'a> EsoLogReaderLine<'a> {
    /// Length of the leading digit run together with its value, if that
    /// value fits `max`; the reader is not advanced.
    pub(crate) fn scan_uint(&self, max: u64) -> (res: Result<(u64, usize), Error>)
        requires
            self.wf(),
        ensures
            ({
                let e = digits_end(self.remaining(), 0);
                match res {
                    Ok((v, n)) => n == e && digits_val(self.remaining().take(e)) == v
                        && v <= max,
                    Err(err) => err == Error::ParseIntError
                        && digits_val(self.remaining().take(e)) > max,
                }
            }),
    {
        let ghost rem = self.remaining();
        proof {
            lemma_digits_end_bounds(rem, 0);
        }
        let len = self.rem_len();
        let mut i: usize = 0;
        let mut acc: u64 = 0;
        while i < len && '0' <= self.char_at(i) && self.char_at(i) <= '9'
            invariant
                self.wf(),
                rem == self.remaining(),
                0 <= i <= len,
                len == rem.len(),
                i <= digits_end(rem, 0),
                acc == digits_val(rem.take(i as int)),
                acc <= max,
                forall|j: int| 0 <= j < i ==> is_digit(#[trigger] rem[j]),
            decreases len - i,
        {
            let c = self.char_at(i);
            let d: u64 = digit_value(c);
            proof {
                assert(rem.take(i + 1).drop_last() =~= rem.take(i as int));
                assert(rem.take(i + 1).last() == rem[i as int]);
                lemma_digits_end_bounds(rem, 0);
                lemma_digits_end_exact_helper(rem, i as int);
            }
            if acc > max / 10 || (acc == max / 10 && d > max % 10) {
                proof {
                    let e = digits_end(rem, 0);
                    assert(digits_val(rem.take(i + 1)) == acc * 10 + d);
                    assert(acc * 10 + d > max) by (nonlinear_arith)
                        requires
                            acc > max / 10 || (acc == max / 10 && d > max % 10),
                            0 <= d <= 9,
                            max == (max / 10) * 10 + max % 10,
                            0 <= max % 10 <= 9,
                    {}
                    lemma_digits_end_bounds(rem, 0);
                    lemma_digits_val_monotone(rem.take(i + 1), rem.take(e));
                    assert(rem.take(i + 1).len() <= rem.take(e).len());
                }
                return Err(Error::ParseIntError);
            }
            proof {
                assert(acc * 10 + d <= max) by (nonlinear_arith)
                    requires
                        acc <= max / 10,
                        acc < max / 10 || d <= max % 10,
                        0 <= d <= 9,
                        max == (max / 10) * 10 + max % 10,
                    {}
            }
            acc = acc * 10 + d;
            i = i + 1;
        }
        proof {
            lemma_digits_end_exact(rem, 0, i as int);
        }
        Ok((acc, i))
    }

    /// Reads an unsigned value no larger than `max`, then a comma or the
    /// end of the line, consuming both.
    pub fn read_uint(&mut self, max: u64) -> (res: Result<u64, Error>)
        requires
            old(self).wf(),
        ensures
            final(self).wf(),
            match spec_parse_uint(old(self).remaining(), max as nat) {
                Ok((v, rest)) => res == Ok::<u64, Error>(v as u64) && final(self).remaining() == rest,
                Err(e) => res == Err::<u64, Error>(e),
            },
    {
        let ghost rem = self.remaining();
        proof {
            lemma_digits_end_bounds(rem, 0);
        }
        let (v, n) = match self.scan_uint(max) {
            Ok(p) => p,
            Err(e) => {
                return Err(e);
            },
        };
        if n == 0 {
            return Err(Error::ParseIntError);
        }
        let len = self.rem_len();
        if n < len {
            if self.char_at(n) != ',' {
                return Err(Error::ParseIntError);
            }
            self.advance(n + 1);
        } else {
            self.advance(n);
        }
        Ok(v)
    }
}

/// One unfolding step of `digits_end` from the left edge.
proof fn lemma_digits_end_exact_helper(s: Seq<char>, i: int)
    requires
        0 <= i < s.len(),
        forall|j: int| 0 <= j < i ==> is_digit(#[trigger] s[j]),
        is_digit(s[i]),
    ensures
        digits_end(s, 0) >= i + 1,
{
    lemma_digits_end_bounds(s, 0);
    if digits_end(s, 0) <= i {
        assert(!is_digit(s[digits_end(s, 0)]));
    }
}

/// Numeric value of a digit character.
fn digit_value(c: char) -> (r: u64)
    requires
        is_digit(c),
    ensures
        r == digit_val(c),
        r <= 9,
{
    (c as u32 - '0' as u32) as u64
}

/// The digit character for a value below ten, as a slice.
fn digit_str(d: u64) -> (r: &'static str)
    requires
        d <= 9,
    ensures
        r@ == seq![digit_char(d as nat)],
{
    proof {
        reveal_strlit("0");
        reveal_strlit("1");
        reveal_strlit("2");
        reveal_strlit("3");
        reveal_strlit("4");
        reveal_strlit("5");
        reveal_strlit("6");
        reveal_strlit("7");
        reveal_strlit("8");
        reveal_strlit("9");
        assert("0"@ =~= seq!['0']);
        assert("1"@ =~= seq!['1']);
        assert("2"@ =~= seq!['2']);
        assert("3"@ =~= seq!['3']);
        assert("4"@ =~= seq!['4']);
        assert("5"@ =~= seq!['5']);
        assert("6"@ =~= seq!['6']);
        assert("7"@ =~= seq!['7']);
        assert("8"@ =~= seq!['8']);
        assert("9"@ =~= seq!['9']);
    }
    if d == 0 { "0" }
    else if d == 1 { "1" }
    else if d == 2 { "2" }
    else if d == 3 { "3" }
    else if d == 4 { "4" }
    else if d == 5 { "5" }
    else if d == 6 { "6" }
    else if d == 7 { "7" }
    else if d == 8 { "8" }
    else { "9" }
}

/// Appends the shortest decimal spelling of `v`.
pub fn append_uint(out: &mut String, v: u64)
    ensures
        final(out)@ == old(out)@ + spec_dump_uint(v as nat),
    decreases v,
{
    if v >= 10 {
        append_uint(out, v / 10);
        let ghost mid = out@;
        out.append(digit_str(v % 10));
        proof {
            assert(out@ =~= old(out)@ + spec_dump_uint(v as nat));
        }
    } else {
        out.append(digit_str(v));
        proof {
            assert(out@ =~= old(out)@ + spec_dump_uint(v as nat));
        }
    }
}

/// Exactly `width` digits, zero padded on the left.
pub open spec fn spec_zero_padded(v: nat, width: nat) -> Seq<char>
    decreases width,
{
    if width == 0 {
        Seq::empty()
    } else {
        spec_zero_padded(v / 10, (width - 1) as nat).push(digit_char(v % 10))
    }
}

pub proof fn lemma_zero_padded_digits(v: nat, width: nat)
    ensures
        spec_zero_padded(v, width).len() == width,
        forall|i: int| 0 <= i < width ==> is_digit(#[trigger] spec_zero_padded(v, width)[i]),
    decreases width,
{
    if width > 0 {
        lemma_zero_padded_digits(v / 10, (width - 1) as nat);
    }
}

pub proof fn lemma_zero_padded_value(v: nat, width: nat)
    requires
        v < pow10(width),
    ensures
        digits_val(spec_zero_padded(v, width)) == v,
    decreases width,
{
    if width == 0 {
    } else {
        assert(pow10(width) == 10 * pow10((width - 1) as nat));
        assert(v / 10 < pow10((width - 1) as nat)) by (nonlinear_arith)
            requires v < 10 * pow10((width - 1) as nat)
        {}
        lemma_zero_padded_value(v / 10, (width - 1) as nat);
        let s = spec_zero_padded(v, width);
        assert(s.drop_last() =~= spec_zero_padded(v / 10, (width - 1) as nat));
        assert(digits_val(s) == (v / 10) * 10 + v % 10);
    }
}

/// Appends `v` zero padded to exactly `width` digits.
pub fn append_zero_padded(out: &mut String, v: u64, width: usize)
    ensures
        final(out)@ == old(out)@ + spec_zero_padded(v as nat, width as nat),
    decreases width,
{
    if width == 0 {
        proof {
            assert(out@ =~= old(out)@ + spec_zero_padded(v as nat, width as nat));
        }
        return;
    }
    append_zero_padded(out, v / 10, width - 1);
    out.append(digit_str(v % 10));
    proof {
        assert(out@ =~= old(out)@ + spec_zero_padded(v as nat, width as nat));
    }
}

} // verus!
