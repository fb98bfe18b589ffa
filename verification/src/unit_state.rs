use vstd::prelude::*;

#[allow(unused_imports)]
use crate::decimal::Decimal;
#[allow(unused_imports)]
use crate::enums::{DisplayQuality, EnchantType, EquipSlot, Trait,
    spec_parse_display_quality, spec_parse_enchant_type, spec_parse_equip_slot, spec_parse_trait,
    parse_display_quality, parse_enchant_type, parse_equip_slot, parse_trait};
#[allow(unused_imports)]
use crate::error::Error;
#[allow(unused_imports)]
use crate::fields::{append_bool, append_decimal, append_str, parse_bool, parse_decimal,
    spec_dump_bool, spec_dump_decimal, spec_parse_bool, spec_parse_decimal, str_wf,
    lemma_parse_bool_roundtrip, lemma_parse_decimal_roundtrip};
#[allow(unused_imports)]
use crate::ids::{Attribute, Id, Level, SetId, UnitId};
#[allow(unused_imports)]
use crate::reader::{EsoLogReader, EsoLogReaderLine, EsoLogReaderSplitChar, find_from,
    lemma_find_from_bounds, spec_next_token};
#[allow(unused_imports)]
use crate::scalars::{append_uint, chop, digits_end, lemma_comma_chop, lemma_digits_end_bounds,
    lemma_digits_end_exact, lemma_parse_uint_roundtrip, lemma_regroup_comma_first,
    lemma_regroup_head, lemma_regroup_last, lemma_shift_rest, sep_ok, spec_dump_uint,
    spec_parse_uint};
#[allow(unused_imports)]
use crate::strutil::{digits_val, is_digit, lemma_digits_of_roundtrip,
    lemma_spec_digits_of_digits, str_eq};
#[allow(unused_imports)]
use crate::tokens::{clean_atom, is_atom_token, is_list_token, lemma_clean_atom_is_atom,
    lemma_digits_clean, lemma_next_token_atom, lemma_next_token_list, lemma_no_brackets_inner_ok,
    lemma_wrap_list, list_inner_ok};

verus! {

/// A depletable resource pool: one `current/max` token on the wire.
#[derive(Debug, Clone, Copy, PartialEq, Eq, Structural)]
pub struct CurrentMaxAttribute {
    pub current: Attribute,
    pub max: Attribute,
}

impl CurrentMaxAttribute {
    pub fn new(current: Attribute, max: Attribute) -> (r: CurrentMaxAttribute)
        ensures
            r == (CurrentMaxAttribute { current, max }),
    {
        CurrentMaxAttribute { current, max }
    }

    pub fn current(&self) -> (r: &Attribute)
        ensures
            r == &self.current,
    {
        &self.current
    }

    pub fn max(&self) -> (r: &Attribute)
        ensures
            r == &self.max,
    {
        &self.max
    }
}

/// Wire text of a pool: `current/max`.
pub open spec fn spec_dump_pair(p: CurrentMaxAttribute) -> Seq<char> {
    spec_dump_uint(p.current as nat) + seq!['/'] + spec_dump_uint(p.max as nat)
}

/// A digit run, possibly empty, spelling a value bounded by `max`.
pub open spec fn digits_value_ok(t: Seq<char>, max: nat) -> bool {
    digits_end(t, 0) == t.len() && digits_val(t) <= max
}

/// One token split at its first slash; each half is a digit run, an empty
/// half standing for zero.
pub open spec fn spec_parse_pair(s: Seq<char>) -> Result<(CurrentMaxAttribute, Seq<char>), Error> {
    match spec_next_token(s) {
        None => Err(Error::UnexpectedEnd),
        Some((tok, rest)) => {
            let e = find_from(tok, 0, '/');
            if e == 0 {
                Err(Error::ParseIntError)
            } else {
                let cur = tok.take(e);
                let mx = if e < tok.len() { tok.skip(e + 1) } else { Seq::<char>::empty() };
                if digits_value_ok(cur, u32::MAX as nat) && digits_value_ok(mx, u32::MAX as nat) {
                    Ok((CurrentMaxAttribute {
                        current: digits_val(cur) as u32,
                        max: digits_val(mx) as u32,
                    }, rest))
                } else {
                    Err(Error::ParseIntError)
                }
            }
        },
    }
}

/// Value of a whole string of digits bounded by `max`; an empty string is
/// zero.
fn str_uint(s: &str, max: u64) -> (res: Result<u64, Error>)
    ensures
        match res {
            Ok(v) => digits_value_ok(s@, max as nat) && v == digits_val(s@),
            Err(e) => e == Error::ParseIntError && !digits_value_ok(s@, max as nat),
        },
{
    let r = EsoLogReaderLine::new(s);
    let n = r.rem_len();
    proof {
        lemma_digits_end_bounds(s@, 0);
    }
    match r.scan_uint(max) {
        Ok((v, e)) => {
            if e == n {
                proof {
                    assert(s@.take(e as int) =~= s@);
                }
                Ok(v)
            } else {
                Err(Error::ParseIntError)
            }
        },
        Err(_) => {
            proof {
                if digits_end(s@, 0) == s@.len() {
                    assert(s@.take(digits_end(s@, 0)) =~= s@);
                }
            }
            Err(Error::ParseIntError)
        },
    }
}

/// Reads one `current/max` pool token.
pub fn parse_pair(r: &mut EsoLogReaderLine) -> (res: Result<CurrentMaxAttribute, Error>)
    requires
        old(r).wf(),
    ensures
        final(r).wf(),
        match spec_parse_pair(old(r).remaining()) {
            Ok((v, rest)) => res == Ok::<CurrentMaxAttribute, Error>(v)
                && final(r).remaining() == rest,
            Err(e) => res == Err::<CurrentMaxAttribute, Error>(e),
        },
{
    let tok = match r.next() {
        Some(t) => t,
        None => {
            return Err(Error::UnexpectedEnd);
        },
    };
    let mut split = EsoLogReader::new_split(tok, '/');
    proof {
        lemma_find_from_bounds(tok@, 0, '/');
    }
    let cur_str = match split.next() {
        Some(t) => t,
        None => {
            return Err(Error::ParseIntError);
        },
    };
    let mx_str = split.inner();
    proof {
        let e = find_from(tok@, 0, '/');
        if e < tok@.len() {
            assert(mx_str@ =~= tok@.skip(e + 1));
        } else {
            assert(mx_str@ =~= Seq::<char>::empty());
        }
    }
    let current = match str_uint(cur_str, u32::MAX as u64) {
        Ok(v) => v as u32,
        Err(e) => {
            return Err(e);
        },
    };
    let max = match str_uint(mx_str, u32::MAX as u64) {
        Ok(v) => v as u32,
        Err(e) => {
            return Err(e);
        },
    };
    Ok(CurrentMaxAttribute { current, max })
}

/// Appends `current/max`.
pub fn append_pair(out: &mut String, p: &CurrentMaxAttribute)
    ensures
        final(out)@ == old(out)@ + spec_dump_pair(*p),
{
    append_uint(out, p.current as u64);
    out.append("/");
    append_uint(out, p.max as u64);
    proof {
        reveal_strlit("/");
        assert("/"@ =~= seq!['/']);
        assert(out@ =~= old(out)@ + spec_dump_pair(*p));
    }
}

/// Parsing a dumped pool yields the pool.
pub proof fn lemma_parse_pair_roundtrip(p: CurrentMaxAttribute, rest: Seq<char>)
    requires
        sep_ok(rest),
    ensures
        spec_parse_pair(spec_dump_pair(p) + rest) == Ok::<(CurrentMaxAttribute, Seq<char>), Error>((p, chop(rest))),
{
    let dc = spec_dump_uint(p.current as nat);
    let dm = spec_dump_uint(p.max as nat);
    let tok = spec_dump_pair(p);
    lemma_spec_digits_of_digits(p.current as nat);
    lemma_spec_digits_of_digits(p.max as nat);
    lemma_digits_of_roundtrip(p.current as nat);
    lemma_digits_of_roundtrip(p.max as nat);
    lemma_digits_clean(dc);
    lemma_digits_clean(dm);
    assert forall|i: int| 0 <= i < tok.len() implies tok[i] != ',' by {
        if i < dc.len() {
            assert(tok[i] == dc[i]);
        } else if i == dc.len() {
            assert(tok[i] == '/');
        } else {
            assert(tok[i] == dm[i - dc.len() - 1]);
        }
    }
    assert(tok[0] == dc[0]);
    assert(is_atom_token(tok));
    lemma_next_token_atom(tok, rest);
    assert forall|j: int| 0 <= j < dc.len() implies tok[j] != '/' by {
        assert(tok[j] == dc[j]);
    }
    assert(tok[dc.len() as int] == '/');
    crate::tokens::lemma_find_from_exact(tok, 0, dc.len() as int, '/');
    assert(tok.take(dc.len() as int) =~= dc);
    assert(tok.skip(dc.len() as int + 1) =~= dm);
    lemma_digits_end_exact(dc, 0, dc.len() as int);
    lemma_digits_end_exact(dm, 0, dm.len() as int);
    assert(digits_value_ok(dc, u32::MAX as nat));
    assert(digits_value_ok(dm, u32::MAX as nat));
}

/// Map position and heading of a unit, as spelled on the wire.
#[derive(Debug, Clone, Copy, PartialEq, Eq, Structural)]
pub struct Pos {
    pub x: Decimal,
    pub y: Decimal,
    pub rotation: Decimal,
}

impl Pos {
    pub fn x(&self) -> (r: &Decimal)
        ensures
            r == &self.x,
    {
        &self.x
    }

    pub fn y(&self) -> (r: &Decimal)
        ensures
            r == &self.y,
    {
        &self.y
    }

    pub fn rotation(&self) -> (r: &Decimal)
        ensures
            r == &self.rotation,
    {
        &self.rotation
    }

}

/// The record round-trips through the wire grammar.
pub open spec fn pos_wf(m: Pos) -> bool {
    &&& m.x.wf()
    &&& m.y.wf()
    &&& m.rotation.wf()
}

/// Wire text of the record, fields comma separated.
pub open spec fn spec_dump_pos(m: Pos) -> Seq<char> {
    spec_dump_decimal(m.x) + (seq![','] + (spec_dump_decimal(m.y) + (seq![','] + (spec_dump_decimal(m.rotation)))))
}

/// Parses the record's fields in declaration order.
pub open spec fn spec_parse_pos(s: Seq<char>) -> Result<(Pos, Seq<char>), Error> {
    match spec_parse_decimal(s) {
        Err(e) => Err(e),
        Ok((v_x, s1)) => {
            match spec_parse_decimal(s1) {
                Err(e) => Err(e),
                Ok((v_y, s2)) => {
                    match spec_parse_decimal(s2) {
                        Err(e) => Err(e),
                        Ok((v_rotation, s3)) => {
                            let m = Pos {
                                x: v_x,
                                y: v_y,
                                rotation: v_rotation,
                            };
                            Ok((m, s3))
                        },
                    }
                },
            }
        },
    }
}

/// Reads one `Pos` from the line.
pub fn parse_pos(r: &mut EsoLogReaderLine) -> (res: Result<Pos, Error>)
    requires
        old(r).wf(),
    ensures
        final(r).wf(),
        match spec_parse_pos(old(r).remaining()) {
            Ok((m, rest)) => res == Ok::<Pos, Error>(m) && final(r).remaining() == rest,
            Err(e) => res == Err::<Pos, Error>(e),
        },
{
    let x = match parse_decimal(r) { Ok(v) => v, Err(e) => { return Err(e); } };
    let y = match parse_decimal(r) { Ok(v) => v, Err(e) => { return Err(e); } };
    let rotation = match parse_decimal(r) { Ok(v) => v, Err(e) => { return Err(e); } };
    Ok(Pos {
        x,
        y,
        rotation,
    })
}

impl Pos {
    /// Appends this record's wire text.
    #[verifier::rlimit(100)]
    pub fn append_to(&self, out: &mut String)
        ensures
            final(out)@ == old(out)@ + spec_dump_pos(*self),
    {
        proof {
            reveal_strlit(",");
            assert(","@ =~= seq![',']);
        }
        let ghost b0 = out@;
        append_decimal(out, &self.x);
        let ghost b1 = out@;
        out.append(",");
        append_decimal(out, &self.y);
        let ghost b2 = out@;
        out.append(",");
        append_decimal(out, &self.rotation);
        let ghost b3 = out@;
        proof {
            assert(b1 == b0 + (spec_dump_decimal((*self).x)));
            assert(b2 == (b1 + seq![',']) + (spec_dump_decimal((*self).y)));
            assert(b3 == (b2 + seq![',']) + (spec_dump_decimal((*self).rotation)));
            assert(out@ == b3);
            let u2 = seq![','] + (spec_dump_decimal((*self).rotation));
            lemma_regroup_last(b2, spec_dump_decimal((*self).rotation), out@);
            assert(out@ == b2 + u2);
            let u1 = seq![','] + ((spec_dump_decimal((*self).y)) + u2);
            lemma_regroup_comma_first(b1, spec_dump_decimal((*self).y), b2, u2, out@);
            assert(out@ == b1 + u1);
            let u0 = (spec_dump_decimal((*self).x)) + u1;
            lemma_regroup_head(b0, spec_dump_decimal((*self).x), b1, u1, out@);
            assert(out@ == b0 + u0);
            assert(out@ == b0 + spec_dump_pos((*self)));
        }
    }
}

/// Parsing the dumped record yields the record.
#[verifier::rlimit(100)]
pub proof fn lemma_parse_pos_roundtrip(m: Pos, rest: Seq<char>)
    requires
        pos_wf(m),
        sep_ok(rest),
    ensures
        spec_parse_pos(spec_dump_pos(m) + rest) == Ok::<(Pos, Seq<char>), Error>((m, chop(rest))),
{
    let s2 = spec_dump_decimal(m.rotation) + rest;
    let s1 = spec_dump_decimal(m.y) + (seq![','] + s2);
    let s0 = spec_dump_decimal(m.x) + (seq![','] + s1);
    lemma_comma_chop(s1);
    lemma_parse_decimal_roundtrip(m.x, seq![','] + s1);
    lemma_comma_chop(s2);
    lemma_parse_decimal_roundtrip(m.y, seq![','] + s2);
    lemma_parse_decimal_roundtrip(m.rotation, rest);
    let v2 = spec_dump_decimal(m.rotation);
    assert(v2 + rest == s2);
    let v1 = spec_dump_decimal(m.y) + (seq![','] + v2);
    lemma_shift_rest(spec_dump_decimal(m.y), v2, s2, rest);
    assert(v1 + rest == s1);
    let v0 = spec_dump_decimal(m.x) + (seq![','] + v1);
    lemma_shift_rest(spec_dump_decimal(m.x), v1, s1, rest);
    assert(v0 + rest == s0);
    assert(spec_dump_pos(m) =~= v0);
    assert(spec_dump_pos(m) + rest == s0);
}

/// Everything the log says about a unit at one instant.
#[derive(Debug, Clone, Copy, PartialEq, Eq, Structural)]
pub struct UnitState {
    pub unit_id: UnitId,
    pub health: CurrentMaxAttribute,
    pub magicka: CurrentMaxAttribute,
    pub stamina: CurrentMaxAttribute,
    pub ultimate: CurrentMaxAttribute,
    pub werewolf: CurrentMaxAttribute,
    pub shield: Attribute,
    pub pos: Pos,
}

impl UnitState {
    pub fn unit_id(&self) -> (r: &UnitId)
        ensures
            r == &self.unit_id,
    {
        &self.unit_id
    }

    pub fn health(&self) -> (r: &CurrentMaxAttribute)
        ensures
            r == &self.health,
    {
        &self.health
    }

    pub fn magicka(&self) -> (r: &CurrentMaxAttribute)
        ensures
            r == &self.magicka,
    {
        &self.magicka
    }

    pub fn stamina(&self) -> (r: &CurrentMaxAttribute)
        ensures
            r == &self.stamina,
    {
        &self.stamina
    }

    pub fn ultimate(&self) -> (r: &CurrentMaxAttribute)
        ensures
            r == &self.ultimate,
    {
        &self.ultimate
    }

    pub fn werewolf(&self) -> (r: &CurrentMaxAttribute)
        ensures
            r == &self.werewolf,
    {
        &self.werewolf
    }

    pub fn shield(&self) -> (r: &Attribute)
        ensures
            r == &self.shield,
    {
        &self.shield
    }

    pub fn pos(&self) -> (r: &Pos)
        ensures
            r == &self.pos,
    {
        &self.pos
    }

}

/// The record round-trips through the wire grammar.
pub open spec fn unit_state_wf(m: UnitState) -> bool {
    pos_wf(m.pos)
}

/// Wire text of the record, fields comma separated.
pub open spec fn spec_dump_unit_state(m: UnitState) -> Seq<char> {
    spec_dump_uint(m.unit_id.0 as nat) + (seq![','] + (spec_dump_pair(m.health) + (seq![','] + (spec_dump_pair(m.magicka) + (seq![','] + (spec_dump_pair(m.stamina) + (seq![','] + (spec_dump_pair(m.ultimate) + (seq![','] + (spec_dump_pair(m.werewolf) + (seq![','] + (spec_dump_uint(m.shield as nat) + (seq![','] + (spec_dump_pos(m.pos)))))))))))))))
}

/// Parses the record's fields in declaration order.
pub open spec fn spec_parse_unit_state(s: Seq<char>) -> Result<(UnitState, Seq<char>), Error> {
    match spec_parse_uint(s, u64::MAX as nat) {
        Err(e) => Err(e),
        Ok((v_unit_id, s1)) => {
            match spec_parse_pair(s1) {
                Err(e) => Err(e),
                Ok((v_health, s2)) => {
                    match spec_parse_pair(s2) {
                        Err(e) => Err(e),
                        Ok((v_magicka, s3)) => {
                            match spec_parse_pair(s3) {
                                Err(e) => Err(e),
                                Ok((v_stamina, s4)) => {
                                    match spec_parse_pair(s4) {
                                        Err(e) => Err(e),
                                        Ok((v_ultimate, s5)) => {
                                            match spec_parse_pair(s5) {
                                                Err(e) => Err(e),
                                                Ok((v_werewolf, s6)) => {
                                                    match spec_parse_uint(s6, u32::MAX as nat) {
                                                        Err(e) => Err(e),
                                                        Ok((v_shield, s7)) => {
                                                            match spec_parse_pos(s7) {
                                                                Err(e) => Err(e),
                                                                Ok((v_pos, s8)) => {
                                                                    let m = UnitState {
                                                                        unit_id: UnitId(v_unit_id as u64),
                                                                        health: v_health,
                                                                        magicka: v_magicka,
                                                                        stamina: v_stamina,
                                                                        ultimate: v_ultimate,
                                                                        werewolf: v_werewolf,
                                                                        shield: v_shield as u32,
                                                                        pos: v_pos,
                                                                    };
                                                                    Ok((m, s8))
                                                                },
                                                            }
                                                        },
                                                    }
                                                },
                                            }
                                        },
                                    }
                                },
                            }
                        },
                    }
                },
            }
        },
    }
}

/// Reads one `UnitState` from the line.
pub fn parse_unit_state(r: &mut EsoLogReaderLine) -> (res: Result<UnitState, Error>)
    requires
        old(r).wf(),
    ensures
        final(r).wf(),
        match spec_parse_unit_state(old(r).remaining()) {
            Ok((m, rest)) => res == Ok::<UnitState, Error>(m) && final(r).remaining() == rest,
            Err(e) => res == Err::<UnitState, Error>(e),
        },
{
    let unit_id = UnitId(match r.read_uint(u64::MAX) { Ok(v) => v, Err(e) => { return Err(e); } });
    let health = match parse_pair(r) { Ok(v) => v, Err(e) => { return Err(e); } };
    let magicka = match parse_pair(r) { Ok(v) => v, Err(e) => { return Err(e); } };
    let stamina = match parse_pair(r) { Ok(v) => v, Err(e) => { return Err(e); } };
    let ultimate = match parse_pair(r) { Ok(v) => v, Err(e) => { return Err(e); } };
    let werewolf = match parse_pair(r) { Ok(v) => v, Err(e) => { return Err(e); } };
    let shield = (match r.read_uint(u32::MAX as u64) { Ok(v) => v, Err(e) => { return Err(e); } }) as u32;
    let pos = match parse_pos(r) { Ok(v) => v, Err(e) => { return Err(e); } };
    Ok(UnitState {
        unit_id,
        health,
        magicka,
        stamina,
        ultimate,
        werewolf,
        shield,
        pos,
    })
}

impl UnitState {
    /// Appends this record's wire text.
    #[verifier::rlimit(100)]
    pub fn append_to(&self, out: &mut String)
        ensures
            final(out)@ == old(out)@ + spec_dump_unit_state(*self),
    {
        proof {
            reveal_strlit(",");
            assert(","@ =~= seq![',']);
        }
        let ghost b0 = out@;
        append_uint(out, self.unit_id.0);
        let ghost b1 = out@;
        out.append(",");
        append_pair(out, &self.health);
        let ghost b2 = out@;
        out.append(",");
        append_pair(out, &self.magicka);
        let ghost b3 = out@;
        out.append(",");
        append_pair(out, &self.stamina);
        let ghost b4 = out@;
        out.append(",");
        append_pair(out, &self.ultimate);
        let ghost b5 = out@;
        out.append(",");
        append_pair(out, &self.werewolf);
        let ghost b6 = out@;
        out.append(",");
        append_uint(out, self.shield as u64);
        let ghost b7 = out@;
        out.append(",");
        self.pos.append_to(out);
        let ghost b8 = out@;
        proof {
            assert(b1 == b0 + (spec_dump_uint((*self).unit_id.0 as nat)));
            assert(b2 == (b1 + seq![',']) + (spec_dump_pair((*self).health)));
            assert(b3 == (b2 + seq![',']) + (spec_dump_pair((*self).magicka)));
            assert(b4 == (b3 + seq![',']) + (spec_dump_pair((*self).stamina)));
            assert(b5 == (b4 + seq![',']) + (spec_dump_pair((*self).ultimate)));
            assert(b6 == (b5 + seq![',']) + (spec_dump_pair((*self).werewolf)));
            assert(b7 == (b6 + seq![',']) + (spec_dump_uint((*self).shield as nat)));
            assert(b8 == (b7 + seq![',']) + (spec_dump_pos((*self).pos)));
            assert(out@ == b8);
            let u7 = seq![','] + (spec_dump_pos((*self).pos));
            lemma_regroup_last(b7, spec_dump_pos((*self).pos), out@);
            assert(out@ == b7 + u7);
            let u6 = seq![','] + ((spec_dump_uint((*self).shield as nat)) + u7);
            lemma_regroup_comma_first(b6, spec_dump_uint((*self).shield as nat), b7, u7, out@);
            assert(out@ == b6 + u6);
            let u5 = seq![','] + ((spec_dump_pair((*self).werewolf)) + u6);
            lemma_regroup_comma_first(b5, spec_dump_pair((*self).werewolf), b6, u6, out@);
            assert(out@ == b5 + u5);
            let u4 = seq![','] + ((spec_dump_pair((*self).ultimate)) + u5);
            lemma_regroup_comma_first(b4, spec_dump_pair((*self).ultimate), b5, u5, out@);
            assert(out@ == b4 + u4);
            let u3 = seq![','] + ((spec_dump_pair((*self).stamina)) + u4);
            lemma_regroup_comma_first(b3, spec_dump_pair((*self).stamina), b4, u4, out@);
            assert(out@ == b3 + u3);
            let u2 = seq![','] + ((spec_dump_pair((*self).magicka)) + u3);
            lemma_regroup_comma_first(b2, spec_dump_pair((*self).magicka), b3, u3, out@);
            assert(out@ == b2 + u2);
            let u1 = seq![','] + ((spec_dump_pair((*self).health)) + u2);
            lemma_regroup_comma_first(b1, spec_dump_pair((*self).health), b2, u2, out@);
            assert(out@ == b1 + u1);
            let u0 = (spec_dump_uint((*self).unit_id.0 as nat)) + u1;
            lemma_regroup_head(b0, spec_dump_uint((*self).unit_id.0 as nat), b1, u1, out@);
            assert(out@ == b0 + u0);
            assert(out@ == b0 + spec_dump_unit_state((*self)));
        }
    }
}

/// Parsing the dumped record yields the record.
#[verifier::rlimit(100)]
pub proof fn lemma_parse_unit_state_roundtrip(m: UnitState, rest: Seq<char>)
    requires
        unit_state_wf(m),
        sep_ok(rest),
    ensures
        spec_parse_unit_state(spec_dump_unit_state(m) + rest) == Ok::<(UnitState, Seq<char>), Error>((m, chop(rest))),
{
    let s7 = spec_dump_pos(m.pos) + rest;
    let s6 = spec_dump_uint(m.shield as nat) + (seq![','] + s7);
    let s5 = spec_dump_pair(m.werewolf) + (seq![','] + s6);
    let s4 = spec_dump_pair(m.ultimate) + (seq![','] + s5);
    let s3 = spec_dump_pair(m.stamina) + (seq![','] + s4);
    let s2 = spec_dump_pair(m.magicka) + (seq![','] + s3);
    let s1 = spec_dump_pair(m.health) + (seq![','] + s2);
    let s0 = spec_dump_uint(m.unit_id.0 as nat) + (seq![','] + s1);
    lemma_comma_chop(s1);
    lemma_parse_uint_roundtrip(m.unit_id.0 as nat, u64::MAX as nat, seq![','] + s1);
    lemma_comma_chop(s2);
    lemma_parse_pair_roundtrip(m.health, seq![','] + s2);
    lemma_comma_chop(s3);
    lemma_parse_pair_roundtrip(m.magicka, seq![','] + s3);
    lemma_comma_chop(s4);
    lemma_parse_pair_roundtrip(m.stamina, seq![','] + s4);
    lemma_comma_chop(s5);
    lemma_parse_pair_roundtrip(m.ultimate, seq![','] + s5);
    lemma_comma_chop(s6);
    lemma_parse_pair_roundtrip(m.werewolf, seq![','] + s6);
    lemma_comma_chop(s7);
    lemma_parse_uint_roundtrip(m.shield as nat, u32::MAX as nat, seq![','] + s7);
    lemma_parse_pos_roundtrip(m.pos, rest);
    let v7 = spec_dump_pos(m.pos);
    assert(v7 + rest == s7);
    let v6 = spec_dump_uint(m.shield as nat) + (seq![','] + v7);
    lemma_shift_rest(spec_dump_uint(m.shield as nat), v7, s7, rest);
    assert(v6 + rest == s6);
    let v5 = spec_dump_pair(m.werewolf) + (seq![','] + v6);
    lemma_shift_rest(spec_dump_pair(m.werewolf), v6, s6, rest);
    assert(v5 + rest == s5);
    let v4 = spec_dump_pair(m.ultimate) + (seq![','] + v5);
    lemma_shift_rest(spec_dump_pair(m.ultimate), v5, s5, rest);
    assert(v4 + rest == s4);
    let v3 = spec_dump_pair(m.stamina) + (seq![','] + v4);
    lemma_shift_rest(spec_dump_pair(m.stamina), v4, s4, rest);
    assert(v3 + rest == s3);
    let v2 = spec_dump_pair(m.magicka) + (seq![','] + v3);
    lemma_shift_rest(spec_dump_pair(m.magicka), v3, s3, rest);
    assert(v2 + rest == s2);
    let v1 = spec_dump_pair(m.health) + (seq![','] + v2);
    lemma_shift_rest(spec_dump_pair(m.health), v2, s2, rest);
    assert(v1 + rest == s1);
    let v0 = spec_dump_uint(m.unit_id.0 as nat) + (seq![','] + v1);
    lemma_shift_rest(spec_dump_uint(m.unit_id.0 as nat), v1, s1, rest);
    assert(v0 + rest == s0);
    assert(spec_dump_unit_state(m) =~= v0);
    assert(spec_dump_unit_state(m) + rest == s0);
}

impl UnitState {
    /// A freshly seen unit: empty pools, origin position.
    pub(crate) fn new(unit_id: UnitId) -> (r: UnitState)
        ensures
            r == spec_zero_unit_state(unit_id),
    {
        let empty = CurrentMaxAttribute { current: 0, max: 0 };
        UnitState {
            unit_id,
            health: empty,
            magicka: empty,
            stamina: empty,
            ultimate: empty,
            werewolf: empty,
            shield: 0,
            pos: Pos { x: Decimal::zero(), y: Decimal::zero(), rotation: Decimal::zero() },
        }
    }
}

/// The state a unit carries before any event mentions it.
pub open spec fn spec_zero_unit_state(unit_id: UnitId) -> UnitState {
    let empty = CurrentMaxAttribute { current: 0, max: 0 };
    let zero = Decimal { neg: false, int_part: 0, frac: 0, frac_len: 1 };
    UnitState {
        unit_id,
        health: empty,
        magicka: empty,
        stamina: empty,
        ultimate: empty,
        werewolf: empty,
        shield: 0,
        pos: Pos { x: zero, y: zero, rotation: zero },
    }
}

/// The unit a cast or blow lands on: a full state, or the single token
/// `*` standing for "same as the source".
#[derive(Debug, Clone, Copy, PartialEq, Eq, Structural)]
pub struct TargetUnitState(pub Option<UnitState>);

impl TargetUnitState {
    /// The target's state, falling back to the source's.
    pub fn get<'a>(&'a self, fallback: &'a UnitState) -> (r: &'a UnitState)
        ensures
            r == match &self.0 {
                Some(u) => u,
                None => fallback,
            },
    {
        match &self.0 {
            Some(u) => u,
            None => fallback,
        }
    }

    /// Appends the full state, or `*`.
    pub fn append_to(&self, out: &mut String)
        ensures
            final(out)@ == old(out)@ + spec_dump_target(*self),
    {
        match &self.0 {
            Some(u) => {
                u.append_to(out);
            },
            None => {
                out.append("*");
                proof {
                    reveal_strlit("*");
                    assert(out@ =~= old(out)@ + spec_dump_target(*self));
                }
            },
        }
    }
}

/// Wire text of a target: the source marker or a full unit state.
pub open spec fn spec_dump_target(t: TargetUnitState) -> Seq<char> {
    match t.0 {
        None => "*"@,
        Some(u) => spec_dump_unit_state(u),
    }
}

/// A target round-trips when its carried state does.
pub open spec fn target_wf(t: TargetUnitState) -> bool {
    match t.0 {
        None => true,
        Some(u) => unit_state_wf(u),
    }
}

/// An absent target is an exhausted line or the token `*`; anything else
/// is a full unit state.
pub open spec fn spec_parse_target(s: Seq<char>) -> Result<(TargetUnitState, Seq<char>), Error> {
    if s.len() == 0 {
        Ok((TargetUnitState(None), s))
    } else {
        match spec_next_token(s) {
            None => Err(Error::UnexpectedEnd),
            Some((tok, rest)) => {
                if tok == "*"@ {
                    Ok((TargetUnitState(None), rest))
                } else {
                    match spec_parse_unit_state(s) {
                        Ok((u, r2)) => Ok((TargetUnitState(Some(u)), r2)),
                        Err(e) => Err(e),
                    }
                }
            },
        }
    }
}

/// Reads a target unit state.
pub fn parse_target(r: &mut EsoLogReaderLine) -> (res: Result<TargetUnitState, Error>)
    requires
        old(r).wf(),
    ensures
        final(r).wf(),
        match spec_parse_target(old(r).remaining()) {
            Ok((v, rest)) => res == Ok::<TargetUnitState, Error>(v)
                && final(r).remaining() == rest,
            Err(e) => res == Err::<TargetUnitState, Error>(e),
        },
{
    if r.is_depleted() {
        return Ok(TargetUnitState(None));
    }
    let mut peek = r.clone_reader();
    let tok = match peek.next() {
        Some(t) => t,
        None => {
            return Err(Error::UnexpectedEnd);
        },
    };
    if str_eq(tok, "*") {
        *r = peek;
        return Ok(TargetUnitState(None));
    }
    match parse_unit_state(r) {
        Ok(u) => Ok(TargetUnitState(Some(u))),
        Err(e) => Err(e),
    }
}

/// Parsing a dumped target yields the target.
pub proof fn lemma_parse_target_roundtrip(t: TargetUnitState, rest: Seq<char>)
    requires
        target_wf(t),
        sep_ok(rest),
    ensures
        spec_parse_target(spec_dump_target(t) + rest) == Ok::<(TargetUnitState, Seq<char>), Error>((t, chop(rest))),
{
    reveal_strlit("*");
    assert("*"@.len() == 1);
    assert("*"@[0] == '*');
    match t.0 {
        None => {
            assert(is_atom_token("*"@));
            lemma_next_token_atom("*"@, rest);
        },
        Some(u) => {
            let d = spec_dump_unit_state(u);
            lemma_parse_unit_state_roundtrip(u, rest);
            let s = d + rest;
            lemma_spec_digits_of_digits(u.unit_id.0 as nat);
            let du = spec_dump_uint(u.unit_id.0 as nat);
            lemma_digits_clean(du);
            assert forall|j: int| 0 <= j < du.len() implies s[j] == du[j] by {}
            assert(is_atom_token(du)) by {
                lemma_clean_atom_is_atom_digits(du);
            }
            crate::reader::lemma_token_end_bounds(s);
            assert(s[0] == du[0]);
            assert(is_digit(s[0]));
            assert(s[0] != ',');
            match spec_next_token(s) {
                Some((tok, _)) => {
                    assert(tok == s.take(crate::reader::token_end(s)));
                    assert(crate::reader::token_end(s) > 0);
                    assert(tok[0] == s[0]);
                    assert(tok[0] != '*');
                    assert(tok != "*"@);
                },
                None => {
                    assert(false);
                },
            }
        },
    }
}

/// Digit runs are plain atoms.
proof fn lemma_clean_atom_is_atom_digits(t: Seq<char>)
    requires
        t.len() > 0,
        forall|i: int| 0 <= i < t.len() ==> is_digit(#[trigger] t[i]),
    ensures
        is_atom_token(t),
{
    lemma_digits_clean(t);
}

/// One piece of worn equipment: a bracketed tuple on the wire.
#[derive(Debug, Clone, Copy, PartialEq, Eq, Structural)]
pub struct EquipmentInfo {
    pub slot: EquipSlot,
    pub id: Id,
    pub is_cp: bool,
    pub level: Level,
    pub trait_: Trait,
    pub display_quality: DisplayQuality,
    pub set_id: SetId,
    pub enchant_type: EnchantType,
    pub is_enchant_cp: bool,
    pub enchant_level: Level,
    pub enchant_quality: DisplayQuality,
}

impl EquipmentInfo {
    pub fn slot(&self) -> (r: &EquipSlot)
        ensures
            r == &self.slot,
    {
        &self.slot
    }

    pub fn id(&self) -> (r: &Id)
        ensures
            r == &self.id,
    {
        &self.id
    }

    pub fn is_cp(&self) -> (r: &bool)
        ensures
            r == &self.is_cp,
    {
        &self.is_cp
    }

    pub fn level(&self) -> (r: &Level)
        ensures
            r == &self.level,
    {
        &self.level
    }

    pub fn trait_(&self) -> (r: &Trait)
        ensures
            r == &self.trait_,
    {
        &self.trait_
    }

    pub fn display_quality(&self) -> (r: &DisplayQuality)
        ensures
            r == &self.display_quality,
    {
        &self.display_quality
    }

    pub fn set_id(&self) -> (r: &SetId)
        ensures
            r == &self.set_id,
    {
        &self.set_id
    }

    pub fn enchant_type(&self) -> (r: &EnchantType)
        ensures
            r == &self.enchant_type,
    {
        &self.enchant_type
    }

    pub fn is_enchant_cp(&self) -> (r: &bool)
        ensures
            r == &self.is_enchant_cp,
    {
        &self.is_enchant_cp
    }

    pub fn enchant_level(&self) -> (r: &Level)
        ensures
            r == &self.enchant_level,
    {
        &self.enchant_level
    }

    pub fn enchant_quality(&self) -> (r: &DisplayQuality)
        ensures
            r == &self.enchant_quality,
    {
        &self.enchant_quality
    }

}

/// The record round-trips through the wire grammar.
pub open spec fn equipment_info_wf(m: EquipmentInfo) -> bool {
    true
}

/// Wire text of the record, fields comma separated.
pub open spec fn spec_dump_equipment_info(m: EquipmentInfo) -> Seq<char> {
    EquipSlot::spec_name(m.slot) + (seq![','] + (spec_dump_uint(m.id.0 as nat) + (seq![','] + (spec_dump_bool(m.is_cp) + (seq![','] + (spec_dump_uint(m.level.0 as nat) + (seq![','] + (Trait::spec_name(m.trait_) + (seq![','] + (DisplayQuality::spec_name(m.display_quality) + (seq![','] + (spec_dump_uint(m.set_id.0 as nat) + (seq![','] + (EnchantType::spec_name(m.enchant_type) + (seq![','] + (spec_dump_bool(m.is_enchant_cp) + (seq![','] + (spec_dump_uint(m.enchant_level.0 as nat) + (seq![','] + (DisplayQuality::spec_name(m.enchant_quality)))))))))))))))))))))
}

/// Parses the record's fields in declaration order.
pub open spec fn spec_parse_equipment_info(s: Seq<char>) -> Result<(EquipmentInfo, Seq<char>), Error> {
    match spec_parse_equip_slot(s) {
        Err(e) => Err(e),
        Ok((v_slot, s1)) => {
            match spec_parse_uint(s1, u64::MAX as nat) {
                Err(e) => Err(e),
                Ok((v_id, s2)) => {
                    match spec_parse_bool(s2) {
                        Err(e) => Err(e),
                        Ok((v_is_cp, s3)) => {
                            match spec_parse_uint(s3, u64::MAX as nat) {
                                Err(e) => Err(e),
                                Ok((v_level, s4)) => {
                                    match spec_parse_trait(s4) {
                                        Err(e) => Err(e),
                                        Ok((v_trait_, s5)) => {
                                            match spec_parse_display_quality(s5) {
                                                Err(e) => Err(e),
                                                Ok((v_display_quality, s6)) => {
                                                    match spec_parse_uint(s6, u64::MAX as nat) {
                                                        Err(e) => Err(e),
                                                        Ok((v_set_id, s7)) => {
                                                            match spec_parse_enchant_type(s7) {
                                                                Err(e) => Err(e),
                                                                Ok((v_enchant_type, s8)) => {
                                                                    match spec_parse_bool(s8) {
                                                                        Err(e) => Err(e),
                                                                        Ok((v_is_enchant_cp, s9)) => {
                                                                            match spec_parse_uint(s9, u64::MAX as nat) {
                                                                                Err(e) => Err(e),
                                                                                Ok((v_enchant_level, s10)) => {
                                                                                    match spec_parse_display_quality(s10) {
                                                                                        Err(e) => Err(e),
                                                                                        Ok((v_enchant_quality, s11)) => {
                                                                                            let m = EquipmentInfo {
                                                                                                slot: v_slot,
                                                                                                id: Id(v_id as u64),
                                                                                                is_cp: v_is_cp,
                                                                                                level: Level(v_level as u64),
                                                                                                trait_: v_trait_,
                                                                                                display_quality: v_display_quality,
                                                                                                set_id: SetId(v_set_id as u64),
                                                                                                enchant_type: v_enchant_type,
                                                                                                is_enchant_cp: v_is_enchant_cp,
                                                                                                enchant_level: Level(v_enchant_level as u64),
                                                                                                enchant_quality: v_enchant_quality,
                                                                                            };
                                                                                            Ok((m, s11))
                                                                                        },
                                                                                    }
                                                                                },
                                                                            }
                                                                        },
                                                                    }
                                                                },
                                                            }
                                                        },
                                                    }
                                                },
                                            }
                                        },
                                    }
                                },
                            }
                        },
                    }
                },
            }
        },
    }
}

/// Reads one `EquipmentInfo` from the line.
pub fn parse_equipment_info(r: &mut EsoLogReaderLine) -> (res: Result<EquipmentInfo, Error>)
    requires
        old(r).wf(),
    ensures
        final(r).wf(),
        match spec_parse_equipment_info(old(r).remaining()) {
            Ok((m, rest)) => res == Ok::<EquipmentInfo, Error>(m) && final(r).remaining() == rest,
            Err(e) => res == Err::<EquipmentInfo, Error>(e),
        },
{
    let slot = match parse_equip_slot(r) { Ok(v) => v, Err(e) => { return Err(e); } };
    let id = Id(match r.read_uint(u64::MAX) { Ok(v) => v, Err(e) => { return Err(e); } });
    let is_cp = match parse_bool(r) { Ok(v) => v, Err(e) => { return Err(e); } };
    let level = Level(match r.read_uint(u64::MAX) { Ok(v) => v, Err(e) => { return Err(e); } });
    let trait_ = match parse_trait(r) { Ok(v) => v, Err(e) => { return Err(e); } };
    let display_quality = match parse_display_quality(r) { Ok(v) => v, Err(e) => { return Err(e); } };
    let set_id = SetId(match r.read_uint(u64::MAX) { Ok(v) => v, Err(e) => { return Err(e); } });
    let enchant_type = match parse_enchant_type(r) { Ok(v) => v, Err(e) => { return Err(e); } };
    let is_enchant_cp = match parse_bool(r) { Ok(v) => v, Err(e) => { return Err(e); } };
    let enchant_level = Level(match r.read_uint(u64::MAX) { Ok(v) => v, Err(e) => { return Err(e); } });
    let enchant_quality = match parse_display_quality(r) { Ok(v) => v, Err(e) => { return Err(e); } };
    Ok(EquipmentInfo {
        slot,
        id,
        is_cp,
        level,
        trait_,
        display_quality,
        set_id,
        enchant_type,
        is_enchant_cp,
        enchant_level,
        enchant_quality,
    })
}

impl EquipmentInfo {
    /// Appends this record's wire text.
    #[verifier::rlimit(100)]
    pub fn append_to(&self, out: &mut String)
        ensures
            final(out)@ == old(out)@ + spec_dump_equipment_info(*self),
    {
        proof {
            reveal_strlit(",");
            assert(","@ =~= seq![',']);
        }
        let ghost b0 = out@;
        append_str(out, self.slot.name());
        let ghost b1 = out@;
        out.append(",");
        append_uint(out, self.id.0);
        let ghost b2 = out@;
        out.append(",");
        append_bool(out, self.is_cp);
        let ghost b3 = out@;
        out.append(",");
        append_uint(out, self.level.0);
        let ghost b4 = out@;
        out.append(",");
        append_str(out, self.trait_.name());
        let ghost b5 = out@;
        out.append(",");
        append_str(out, self.display_quality.name());
        let ghost b6 = out@;
        out.append(",");
        append_uint(out, self.set_id.0);
        let ghost b7 = out@;
        out.append(",");
        append_str(out, self.enchant_type.name());
        let ghost b8 = out@;
        out.append(",");
        append_bool(out, self.is_enchant_cp);
        let ghost b9 = out@;
        out.append(",");
        append_uint(out, self.enchant_level.0);
        let ghost b10 = out@;
        out.append(",");
        append_str(out, self.enchant_quality.name());
        let ghost b11 = out@;
        proof {
            assert(b1 == b0 + (EquipSlot::spec_name((*self).slot)));
            assert(b2 == (b1 + seq![',']) + (spec_dump_uint((*self).id.0 as nat)));
            assert(b3 == (b2 + seq![',']) + (spec_dump_bool((*self).is_cp)));
            assert(b4 == (b3 + seq![',']) + (spec_dump_uint((*self).level.0 as nat)));
            assert(b5 == (b4 + seq![',']) + (Trait::spec_name((*self).trait_)));
            assert(b6 == (b5 + seq![',']) + (DisplayQuality::spec_name((*self).display_quality)));
            assert(b7 == (b6 + seq![',']) + (spec_dump_uint((*self).set_id.0 as nat)));
            assert(b8 == (b7 + seq![',']) + (EnchantType::spec_name((*self).enchant_type)));
            assert(b9 == (b8 + seq![',']) + (spec_dump_bool((*self).is_enchant_cp)));
            assert(b10 == (b9 + seq![',']) + (spec_dump_uint((*self).enchant_level.0 as nat)));
            assert(b11 == (b10 + seq![',']) + (DisplayQuality::spec_name((*self).enchant_quality)));
            assert(out@ == b11);
            let u10 = seq![','] + (DisplayQuality::spec_name((*self).enchant_quality));
            lemma_regroup_last(b10, DisplayQuality::spec_name((*self).enchant_quality), out@);
            assert(out@ == b10 + u10);
            let u9 = seq![','] + ((spec_dump_uint((*self).enchant_level.0 as nat)) + u10);
            lemma_regroup_comma_first(b9, spec_dump_uint((*self).enchant_level.0 as nat), b10, u10, out@);
            assert(out@ == b9 + u9);
            let u8 = seq![','] + ((spec_dump_bool((*self).is_enchant_cp)) + u9);
            lemma_regroup_comma_first(b8, spec_dump_bool((*self).is_enchant_cp), b9, u9, out@);
            assert(out@ == b8 + u8);
            let u7 = seq![','] + ((EnchantType::spec_name((*self).enchant_type)) + u8);
            lemma_regroup_comma_first(b7, EnchantType::spec_name((*self).enchant_type), b8, u8, out@);
            assert(out@ == b7 + u7);
            let u6 = seq![','] + ((spec_dump_uint((*self).set_id.0 as nat)) + u7);
            lemma_regroup_comma_first(b6, spec_dump_uint((*self).set_id.0 as nat), b7, u7, out@);
            assert(out@ == b6 + u6);
            let u5 = seq![','] + ((DisplayQuality::spec_name((*self).display_quality)) + u6);
            lemma_regroup_comma_first(b5, DisplayQuality::spec_name((*self).display_quality), b6, u6, out@);
            assert(out@ == b5 + u5);
            let u4 = seq![','] + ((Trait::spec_name((*self).trait_)) + u5);
            lemma_regroup_comma_first(b4, Trait::spec_name((*self).trait_), b5, u5, out@);
            assert(out@ == b4 + u4);
            let u3 = seq![','] + ((spec_dump_uint((*self).level.0 as nat)) + u4);
            lemma_regroup_comma_first(b3, spec_dump_uint((*self).level.0 as nat), b4, u4, out@);
            assert(out@ == b3 + u3);
            let u2 = seq![','] + ((spec_dump_bool((*self).is_cp)) + u3);
            lemma_regroup_comma_first(b2, spec_dump_bool((*self).is_cp), b3, u3, out@);
            assert(out@ == b2 + u2);
            let u1 = seq![','] + ((spec_dump_uint((*self).id.0 as nat)) + u2);
            lemma_regroup_comma_first(b1, spec_dump_uint((*self).id.0 as nat), b2, u2, out@);
            assert(out@ == b1 + u1);
            let u0 = (EquipSlot::spec_name((*self).slot)) + u1;
            lemma_regroup_head(b0, EquipSlot::spec_name((*self).slot), b1, u1, out@);
            assert(out@ == b0 + u0);
            assert(out@ == b0 + spec_dump_equipment_info((*self)));
        }
    }
}

/// Parsing the dumped record yields the record.
#[verifier::rlimit(100)]
pub proof fn lemma_parse_equipment_info_roundtrip(m: EquipmentInfo, rest: Seq<char>)
    requires
        equipment_info_wf(m),
        sep_ok(rest),
    ensures
        spec_parse_equipment_info(spec_dump_equipment_info(m) + rest) == Ok::<(EquipmentInfo, Seq<char>), Error>((m, chop(rest))),
{
    let s10 = DisplayQuality::spec_name(m.enchant_quality) + rest;
    let s9 = spec_dump_uint(m.enchant_level.0 as nat) + (seq![','] + s10);
    let s8 = spec_dump_bool(m.is_enchant_cp) + (seq![','] + s9);
    let s7 = EnchantType::spec_name(m.enchant_type) + (seq![','] + s8);
    let s6 = spec_dump_uint(m.set_id.0 as nat) + (seq![','] + s7);
    let s5 = DisplayQuality::spec_name(m.display_quality) + (seq![','] + s6);
    let s4 = Trait::spec_name(m.trait_) + (seq![','] + s5);
    let s3 = spec_dump_uint(m.level.0 as nat) + (seq![','] + s4);
    let s2 = spec_dump_bool(m.is_cp) + (seq![','] + s3);
    let s1 = spec_dump_uint(m.id.0 as nat) + (seq![','] + s2);
    let s0 = EquipSlot::spec_name(m.slot) + (seq![','] + s1);
    lemma_comma_chop(s1);
    EquipSlot::lemma_parse_roundtrip(m.slot, seq![','] + s1);
    lemma_comma_chop(s2);
    lemma_parse_uint_roundtrip(m.id.0 as nat, u64::MAX as nat, seq![','] + s2);
    lemma_comma_chop(s3);
    lemma_parse_bool_roundtrip(m.is_cp, seq![','] + s3);
    lemma_comma_chop(s4);
    lemma_parse_uint_roundtrip(m.level.0 as nat, u64::MAX as nat, seq![','] + s4);
    lemma_comma_chop(s5);
    Trait::lemma_parse_roundtrip(m.trait_, seq![','] + s5);
    lemma_comma_chop(s6);
    DisplayQuality::lemma_parse_roundtrip(m.display_quality, seq![','] + s6);
    lemma_comma_chop(s7);
    lemma_parse_uint_roundtrip(m.set_id.0 as nat, u64::MAX as nat, seq![','] + s7);
    lemma_comma_chop(s8);
    EnchantType::lemma_parse_roundtrip(m.enchant_type, seq![','] + s8);
    lemma_comma_chop(s9);
    lemma_parse_bool_roundtrip(m.is_enchant_cp, seq![','] + s9);
    lemma_comma_chop(s10);
    lemma_parse_uint_roundtrip(m.enchant_level.0 as nat, u64::MAX as nat, seq![','] + s10);
    DisplayQuality::lemma_parse_roundtrip(m.enchant_quality, rest);
    let v10 = DisplayQuality::spec_name(m.enchant_quality);
    assert(v10 + rest == s10);
    let v9 = spec_dump_uint(m.enchant_level.0 as nat) + (seq![','] + v10);
    lemma_shift_rest(spec_dump_uint(m.enchant_level.0 as nat), v10, s10, rest);
    assert(v9 + rest == s9);
    let v8 = spec_dump_bool(m.is_enchant_cp) + (seq![','] + v9);
    lemma_shift_rest(spec_dump_bool(m.is_enchant_cp), v9, s9, rest);
    assert(v8 + rest == s8);
    let v7 = EnchantType::spec_name(m.enchant_type) + (seq![','] + v8);
    lemma_shift_rest(EnchantType::spec_name(m.enchant_type), v8, s8, rest);
    assert(v7 + rest == s7);
    let v6 = spec_dump_uint(m.set_id.0 as nat) + (seq![','] + v7);
    lemma_shift_rest(spec_dump_uint(m.set_id.0 as nat), v7, s7, rest);
    assert(v6 + rest == s6);
    let v5 = DisplayQuality::spec_name(m.display_quality) + (seq![','] + v6);
    lemma_shift_rest(DisplayQuality::spec_name(m.display_quality), v6, s6, rest);
    assert(v5 + rest == s5);
    let v4 = Trait::spec_name(m.trait_) + (seq![','] + v5);
    lemma_shift_rest(Trait::spec_name(m.trait_), v5, s5, rest);
    assert(v4 + rest == s4);
    let v3 = spec_dump_uint(m.level.0 as nat) + (seq![','] + v4);
    lemma_shift_rest(spec_dump_uint(m.level.0 as nat), v4, s4, rest);
    assert(v3 + rest == s3);
    let v2 = spec_dump_bool(m.is_cp) + (seq![','] + v3);
    lemma_shift_rest(spec_dump_bool(m.is_cp), v3, s3, rest);
    assert(v2 + rest == s2);
    let v1 = spec_dump_uint(m.id.0 as nat) + (seq![','] + v2);
    lemma_shift_rest(spec_dump_uint(m.id.0 as nat), v2, s2, rest);
    assert(v1 + rest == s1);
    let v0 = EquipSlot::spec_name(m.slot) + (seq![','] + v1);
    lemma_shift_rest(EquipSlot::spec_name(m.slot), v1, s1, rest);
    assert(v0 + rest == s0);
    assert(spec_dump_equipment_info(m) =~= v0);
    assert(spec_dump_equipment_info(m) + rest == s0);
}

} // verus!
