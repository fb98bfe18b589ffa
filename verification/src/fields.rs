use vstd::prelude::*;

use crate::decimal::{pow10, Decimal};
use crate::error::Error;
use crate::reader::{EsoLogReader, EsoLogReaderLine, spec_next_token};
use crate::scalars::{chop, digits_end, sep_ok, spec_dump_uint, spec_parse_uint, spec_zero_padded,
    append_uint, append_zero_padded, lemma_digits_end_bounds, lemma_digits_end_exact,
    lemma_digits_val_bound, lemma_parse_uint_roundtrip, lemma_zero_padded_digits,
    lemma_zero_padded_value};
use crate::strutil::{digits_val, is_digit, lemma_spec_digits_of_digits, str_eq};
use crate::tokens::{is_atom_token, is_quoted_token, lemma_digits_clean, lemma_next_token_atom,
    lemma_next_token_quoted};

verus! {

/// Wire spelling of a boolean.
pub open spec fn spec_dump_bool(b: bool) -> Seq<char> {
    if b {
        "T"@
    } else {
        "F"@
    }
}

/// A boolean is the single token `T` or `F`.
pub open spec fn spec_parse_bool(s: Seq<char>) -> Result<(bool, Seq<char>), Error> {
    match spec_next_token(s) {
        None => Err(Error::UnexpectedEnd),
        Some((tok, rest)) => {
            if tok == "T"@ {
                Ok((true, rest))
            } else if tok == "F"@ {
                Ok((false, rest))
            } else {
                Err(Error::InvalidToken)
            }
        },
    }
}

pub fn parse_bool(r: &mut EsoLogReaderLine) -> (res: Result<bool, Error>)
    requires
        old(r).wf(),
    ensures
        final(r).wf(),
        match spec_parse_bool(old(r).remaining()) {
            Ok((v, rest)) => res == Ok::<bool, Error>(v) && final(r).remaining() == rest,
            Err(e) => res == Err::<bool, Error>(e),
        },
{
    let tok = match r.next() {
        Some(t) => t,
        None => {
            return Err(Error::UnexpectedEnd);
        },
    };
    if str_eq(tok, "T") {
        Ok(true)
    } else if str_eq(tok, "F") {
        Ok(false)
    } else {
        Err(Error::InvalidToken)
    }
}

pub fn append_bool(out: &mut String, b: bool)
    ensures
        final(out)@ == old(out)@ + spec_dump_bool(b),
{
    if b {
        out.append("T");
    } else {
        out.append("F");
    }
}

pub proof fn lemma_parse_bool_roundtrip(b: bool, rest: Seq<char>)
    requires
        sep_ok(rest),
    ensures
        spec_parse_bool(spec_dump_bool(b) + rest) == Ok::<_, Error>((b, chop(rest))),
{
    reveal_strlit("T");
    reveal_strlit("F");
    assert("T"@.len() == 1);
    assert("F"@.len() == 1);
    assert("T"@[0] == 'T');
    assert("F"@[0] == 'F');
    let tok = spec_dump_bool(b);
    assert(is_atom_token(tok));
    lemma_next_token_atom(tok, rest);
}

/// A string field is one raw token, quotes preserved.
pub open spec fn spec_parse_str(s: Seq<char>) -> Result<(Seq<char>, Seq<char>), Error> {
    match spec_next_token(s) {
        None => Err(Error::UnexpectedEnd),
        Some((tok, rest)) => Ok((tok, rest)),
    }
}

/// A string value that the grammar can carry: a plain atom or a quoted
/// token.
pub open spec fn str_wf(v: Seq<char>) -> bool {
    is_atom_token(v) || is_quoted_token(v)
}

pub fn parse_string(r: &mut EsoLogReaderLine) -> (res: Result<String, Error>)
    requires
        old(r).wf(),
    ensures
        final(r).wf(),
        match spec_parse_str(old(r).remaining()) {
            Ok((v, rest)) => res is Ok && res->Ok_0@ == v && final(r).remaining() == rest,
            Err(e) => res == Err::<String, Error>(e),
        },
{
    match r.next() {
        Some(t) => Ok(String::from_str(t)),
        None => Err(Error::UnexpectedEnd),
    }
}

pub fn append_str(out: &mut String, v: &str)
    ensures
        final(out)@ == old(out)@ + v@,
{
    out.append(v);
}

pub proof fn lemma_parse_str_roundtrip(v: Seq<char>, rest: Seq<char>)
    requires
        str_wf(v),
        sep_ok(rest),
    ensures
        spec_parse_str(v + rest) == Ok::<_, Error>((v, chop(rest))),
{
    if is_atom_token(v) {
        lemma_next_token_atom(v, rest);
    } else {
        lemma_next_token_quoted(v, rest);
    }
}

/// Wire spelling of a decimal number.
pub open spec fn spec_dump_decimal(d: Decimal) -> Seq<char> {
    (if d.neg {
        seq!['-']
    } else {
        Seq::<char>::empty()
    }) + spec_dump_uint(d.int_part as nat) + (if d.frac_len == 0 {
        Seq::<char>::empty()
    } else {
        seq!['.'] + spec_zero_padded(d.frac as nat, d.frac_len as nat)
    })
}

/// A decimal: optional sign, integer digits, and an optional dotted
/// fraction, followed by a comma or the end of the line.
pub open spec fn spec_parse_decimal(s: Seq<char>) -> Result<(Decimal, Seq<char>), Error> {
    let sgn: int = if s.len() > 0 && (s[0] == '-' || s[0] == '+') {
        1
    } else {
        0
    };
    let neg = s.len() > 0 && s[0] == '-';
    let t = s.skip(sgn);
    let e = digits_end(t, 0);
    if e == 0 {
        Err(Error::ParseFloatError)
    } else if digits_val(t.take(e)) > u64::MAX {
        Err(Error::ParseFloatError)
    } else {
        let ip = digits_val(t.take(e)) as u64;
        if e == t.len() {
            Ok((Decimal { neg, int_part: ip, frac: 0, frac_len: 0 }, t.skip(e)))
        } else if t[e] == ',' {
            Ok((Decimal { neg, int_part: ip, frac: 0, frac_len: 0 }, t.skip(e + 1)))
        } else if t[e] == '.' {
            let u = t.skip(e + 1);
            let f = digits_end(u, 0);
            if digits_val(u.take(f)) > u64::MAX {
                Err(Error::ParseFloatError)
            } else {
                let fv = digits_val(u.take(f)) as u64;
                let d = Decimal { neg, int_part: ip, frac: fv, frac_len: f as usize };
                if f == u.len() {
                    Ok((d, u.skip(f)))
                } else if u[f] == ',' {
                    Ok((d, u.skip(f + 1)))
                } else {
                    Err(Error::ParseIntError)
                }
            }
        } else {
            Err(Error::ParseFloatError)
        }
    }
}

pub fn parse_decimal(r: &mut EsoLogReaderLine) -> (res: Result<Decimal, Error>)
    requires
        old(r).wf(),
    ensures
        final(r).wf(),
        match spec_parse_decimal(old(r).remaining()) {
            Ok((v, rest)) => res == Ok::<Decimal, Error>(v) && final(r).remaining() == rest
                && v.wf(),
            Err(e) => res == Err::<Decimal, Error>(e),
        },
{
    let ghost s = r.remaining();
    let len0 = r.rem_len();
    let mut neg = false;
    if len0 > 0 {
        let c0 = r.char_at(0);
        if c0 == '-' || c0 == '+' {
            neg = c0 == '-';
            r.advance(1);
        }
    }
    let ghost t = r.remaining();
    proof {
        let sgn: int = if s.len() > 0 && (s[0] == '-' || s[0] == '+') { 1 } else { 0 };
        assert(t =~= s.skip(sgn));
        assert(neg == (s.len() > 0 && s[0] == '-'));
    }
    let (ip, e) = match r.scan_uint(u64::MAX) {
        Ok(p) => p,
        Err(_) => {
            return Err(Error::ParseFloatError);
        },
    };
    if e == 0 {
        return Err(Error::ParseFloatError);
    }
    proof {
        lemma_digits_end_bounds(t, 0);
    }
    let tlen = r.rem_len();
    if e == tlen {
        r.advance(e);
        proof {
            lemma_digits_val_bound_of(t, e as int);
        }
        return Ok(Decimal { neg, int_part: ip, frac: 0, frac_len: 0 });
    }
    let ce = r.char_at(e);
    if ce == ',' {
        r.advance(e + 1);
        proof {
            lemma_digits_val_bound_of(t, e as int);
        }
        return Ok(Decimal { neg, int_part: ip, frac: 0, frac_len: 0 });
    }
    if ce != '.' {
        return Err(Error::ParseFloatError);
    }
    r.advance(e + 1);
    let ghost u = r.remaining();
    let (fv, f) = match r.scan_uint(u64::MAX) {
        Ok(p) => p,
        Err(_) => {
            return Err(Error::ParseFloatError);
        },
    };
    proof {
        lemma_digits_end_bounds(u, 0);
    }
    let ulen = r.rem_len();
    let d = Decimal { neg, int_part: ip, frac: fv, frac_len: f };
    proof {
        lemma_digits_val_bound_of(u, f as int);
    }
    if f == ulen {
        r.advance(f);
        Ok(d)
    } else if r.char_at(f) == ',' {
        r.advance(f + 1);
        Ok(d)
    } else {
        Err(Error::ParseIntError)
    }
}

/// The value of a digit run fits ten to its length.
proof fn lemma_digits_val_bound_of(t: Seq<char>, e: int)
    requires
        0 <= e <= t.len(),
        e == digits_end(t, 0),
    ensures
        digits_val(t.take(e)) < pow10(e as nat),
{
    lemma_digits_end_bounds(t, 0);
    lemma_digits_val_bound(t.take(e));
}

pub fn append_decimal(out: &mut String, d: &Decimal)
    ensures
        final(out)@ == old(out)@ + spec_dump_decimal(*d),
{
    if d.neg {
        out.append("-");
        proof {
            reveal_strlit("-");
            assert("-"@ =~= seq!['-']);
        }
    }
    append_uint(out, d.int_part);
    if d.frac_len > 0 {
        out.append(".");
        proof {
            reveal_strlit(".");
            assert("."@ =~= seq!['.']);
        }
        append_zero_padded(out, d.frac, d.frac_len);
    }
    proof {
        assert(out@ =~= old(out)@ + spec_dump_decimal(*d));
    }
}

#[verifier::rlimit(100)]
pub proof fn lemma_parse_decimal_roundtrip(d: Decimal, rest: Seq<char>)
    requires
        d.wf(),
        sep_ok(rest),
    ensures
        spec_parse_decimal(spec_dump_decimal(d) + rest) == Ok::<_, Error>((d, chop(rest))),
{
    reveal_strlit("-");
    reveal_strlit(".");
    let ipd = spec_dump_uint(d.int_part as nat);
    lemma_spec_digits_of_digits(d.int_part as nat);
    crate::strutil::lemma_digits_of_roundtrip(d.int_part as nat);
    let body = spec_dump_decimal(d);
    let s = body + rest;
    let sgn: int = if d.neg { 1 } else { 0 };
    let t = s.skip(sgn);
    if d.neg {
        assert(s[0] == '-');
    } else {
        assert(s[0] == ipd[0]);
        assert(is_digit(s[0]));
        assert(s[0] != '-' && s[0] != '+');
    }
    if d.frac_len == 0 {
        assert(t =~= ipd + rest);
        assert forall|j: int| 0 <= j < ipd.len() implies is_digit(#[trigger] t[j]) by {
            assert(t[j] == ipd[j]);
        }
        if ipd.len() < t.len() {
            assert(t[ipd.len() as int] == rest[0]);
        }
        lemma_digits_end_exact(t, 0, ipd.len() as int);
        assert(t.take(ipd.len() as int) =~= ipd);
        assert(d.frac == 0);
        if rest.len() == 0 {
            assert(t.skip(ipd.len() as int) =~= chop(rest));
        } else {
            assert(t.skip(ipd.len() as int + 1) =~= chop(rest));
        }
    } else {
        let fd = spec_zero_padded(d.frac as nat, d.frac_len as nat);
        lemma_zero_padded_digits(d.frac as nat, d.frac_len as nat);
        lemma_zero_padded_value(d.frac as nat, d.frac_len as nat);
        assert(t =~= ipd + seq!['.'] + fd + rest);
        assert forall|j: int| 0 <= j < ipd.len() implies is_digit(#[trigger] t[j]) by {
            assert(t[j] == ipd[j]);
        }
        assert(t[ipd.len() as int] == '.');
        lemma_digits_end_exact(t, 0, ipd.len() as int);
        assert(t.take(ipd.len() as int) =~= ipd);
        let u = t.skip(ipd.len() as int + 1);
        assert(u =~= fd + rest);
        assert forall|j: int| 0 <= j < fd.len() implies is_digit(#[trigger] u[j]) by {
            assert(u[j] == fd[j]);
        }
        if fd.len() < u.len() {
            assert(u[fd.len() as int] == rest[0]);
        }
        lemma_digits_end_exact(u, 0, fd.len() as int);
        assert(u.take(fd.len() as int) =~= fd);
        if rest.len() == 0 {
            assert(u.skip(fd.len() as int) =~= chop(rest));
        } else {
            assert(u.skip(fd.len() as int + 1) =~= chop(rest));
        }
    }
}

/// An optional unsigned field: absent at the end of the line, absent as
/// the token `*`, otherwise the value itself.
pub open spec fn spec_parse_opt_uint(s: Seq<char>, max: nat) -> Result<(Option<nat>, Seq<char>), Error> {
    if s.len() == 0 {
        Ok((None, s))
    } else {
        match spec_next_token(s) {
            None => Err(Error::UnexpectedEnd),
            Some((tok, rest)) => {
                if tok == "*"@ {
                    Ok((None, rest))
                } else {
                    match spec_parse_uint(s, max) {
                        Ok((v, r2)) => Ok((Some(v), r2)),
                        Err(e) => Err(e),
                    }
                }
            },
        }
    }
}

pub fn parse_opt_uint(r: &mut EsoLogReaderLine, max: u64) -> (res: Result<Option<u64>, Error>)
    requires
        old(r).wf(),
    ensures
        final(r).wf(),
        match spec_parse_opt_uint(old(r).remaining(), max as nat) {
            Ok((v, rest)) => {
                &&& res is Ok
                &&& match (res->Ok_0, v) {
                    (Some(a), Some(b)) => a == b,
                    (None, None) => true,
                    _ => false,
                }
                &&& final(r).remaining() == rest
            },
            Err(e) => res == Err::<Option<u64>, Error>(e),
        },
{
    if r.is_depleted() {
        return Ok(None);
    }
    let mut peek = r.clone_reader();
    let tok = match peek.next() {
        Some(t) => t,
        None => {
            return Err(Error::UnexpectedEnd);
        },
    };
    if str_eq(tok, "*") {
        *r = peek;
        return Ok(None);
    }
    match r.read_uint(max) {
        Ok(v) => Ok(Some(v)),
        Err(e) => Err(e),
    }
}

/// Parsing a dumped value through the optional rule yields the value.
pub proof fn lemma_parse_opt_uint_some(v: nat, max: nat, rest: Seq<char>)
    requires
        v <= max,
        sep_ok(rest),
    ensures
        spec_parse_opt_uint(spec_dump_uint(v) + rest, max) == Ok::<_, Error>((Some(v), chop(rest))),
{
    reveal_strlit("*");
    let d = spec_dump_uint(v);
    lemma_spec_digits_of_digits(v);
    let s = d + rest;
    lemma_digits_clean(d);
    assert(is_atom_token(d));
    lemma_next_token_atom(d, rest);
    assert("*"@.len() == 1);
    assert("*"@[0] == '*');
    assert(d[0] != '*');
    assert(d != "*"@);
    lemma_parse_uint_roundtrip(v, max, rest);
}

} // verus!
