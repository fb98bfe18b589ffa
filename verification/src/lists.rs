use vstd::prelude::*;

#[allow(unused_imports)]
use crate::enums::{DisplayQuality, EnchantType, EquipSlot, Trait};
use crate::error::Error;
use crate::ids::AbilityId;
use crate::reader::{EsoLogReader, EsoLogReaderLine, spec_next_token};
#[allow(unused_imports)]
use crate::scalars::{append_uint, chop, digits_end, lemma_comma_chop, lemma_digits_end_bounds,
    lemma_parse_uint_roundtrip, lemma_shift_rest, sep_ok, spec_dump_uint, spec_parse_uint};
#[allow(unused_imports)]
use crate::strutil::{digits_val, is_digit, lemma_spec_digits_of_digits, str_eq};
#[allow(unused_imports)]
use crate::tokens::{clean_atom, is_list_token, lemma_clean_atom_is_atom, lemma_digits_clean,
    lemma_inner_ok_concat, lemma_list_token_inner_ok, lemma_next_token_list,
    lemma_no_brackets_concat, lemma_no_brackets_inner_ok, lemma_wrap_list, list_inner_ok,
    no_brackets};
#[allow(unused_imports)]
use crate::unit_state::{spec_dump_equipment_info, spec_parse_equipment_info, parse_equipment_info,
    lemma_parse_equipment_info_roundtrip, equipment_info_wf, EquipmentInfo};

verus! {

/// Wire text of a bracketed token holding a record's fields.
pub open spec fn spec_dump_equipment(m: EquipmentInfo) -> Seq<char> {
    seq!['['] + spec_dump_equipment_info(m) + seq![']']
}

/// One bracketed equipment token; what its fields leave unread inside the
/// brackets is ignored.
pub open spec fn spec_parse_equipment(s: Seq<char>) -> Result<(EquipmentInfo, Seq<char>), Error> {
    match spec_next_token(s) {
        None => Err(Error::UnexpectedEnd),
        Some((tok, after)) => {
            if !(tok.len() >= 2 && tok[0] == '[' && tok[tok.len() - 1] == ']') {
                Err(Error::NotAList)
            } else {
                match spec_parse_equipment_info(tok.subrange(1, tok.len() - 1)) {
                    Ok((m, _leftover)) => Ok((m, after)),
                    Err(e) => Err(e),
                }
            }
        },
    }
}

/// Reads one bracketed equipment token.
pub fn parse_equipment(r: &mut EsoLogReaderLine) -> (res: Result<EquipmentInfo, Error>)
    requires
        old(r).wf(),
    ensures
        final(r).wf(),
        match spec_parse_equipment(old(r).remaining()) {
            Ok((v, rest)) => res == Ok::<EquipmentInfo, Error>(v) && final(r).remaining() == rest,
            Err(e) => res == Err::<EquipmentInfo, Error>(e),
        },
{
    let tok = match r.next() {
        Some(t) => t,
        None => {
            return Err(Error::UnexpectedEnd);
        },
    };
    let tlen = tok.unicode_len();
    if !(tlen >= 2 && tok.get_char(0) == '[' && tok.get_char(tlen - 1) == ']') {
        return Err(Error::NotAList);
    }
    let inner = EsoLogReader::read_vec(tok);
    let mut ir = inner;
    proof {
        assert(ir.remaining() =~= tok@.subrange(1, tok@.len() - 1));
    }
    match parse_equipment_info(&mut ir) {
        Ok(v) => Ok(v),
        Err(e) => Err(e),
    }
}

/// Appends one bracketed equipment token.
pub fn append_equipment(out: &mut String, e: &EquipmentInfo)
    ensures
        final(out)@ == old(out)@ + spec_dump_equipment(*e),
{
    out.append("[");
    e.append_to(out);
    out.append("]");
    proof {
        reveal_strlit("[");
        reveal_strlit("]");
        assert("["@ =~= seq!['[']);
        assert("]"@ =~= seq![']']);
        assert(out@ =~= old(out)@ + spec_dump_equipment(*e));
    }
}

/// The inner text of a dumped equipment record holds no brackets.
#[verifier::rlimit(100)]
#[verifier::spinoff_prover]
pub proof fn lemma_equipment_inner_no_brackets(m: EquipmentInfo)
    ensures
        no_brackets(spec_dump_equipment_info(m)),
{
    let d0 = EquipSlot::spec_name(m.slot);
    let d1 = spec_dump_uint(m.id.0 as nat);
    let d2 = crate::fields::spec_dump_bool(m.is_cp);
    let d3 = spec_dump_uint(m.level.0 as nat);
    let d4 = Trait::spec_name(m.trait_);
    let d5 = DisplayQuality::spec_name(m.display_quality);
    let d6 = spec_dump_uint(m.set_id.0 as nat);
    let d7 = EnchantType::spec_name(m.enchant_type);
    let d8 = crate::fields::spec_dump_bool(m.is_enchant_cp);
    let d9 = spec_dump_uint(m.enchant_level.0 as nat);
    let d10 = DisplayQuality::spec_name(m.enchant_quality);
    m.slot.lemma_name_clean();
    lemma_clean_atom_is_atom(d0);
    m.trait_.lemma_name_clean();
    lemma_clean_atom_is_atom(d4);
    m.display_quality.lemma_name_clean();
    lemma_clean_atom_is_atom(d5);
    m.enchant_type.lemma_name_clean();
    lemma_clean_atom_is_atom(d7);
    m.enchant_quality.lemma_name_clean();
    lemma_clean_atom_is_atom(d10);
    lemma_spec_digits_of_digits(m.id.0 as nat);
    lemma_digits_clean(d1);
    lemma_spec_digits_of_digits(m.level.0 as nat);
    lemma_digits_clean(d3);
    lemma_spec_digits_of_digits(m.set_id.0 as nat);
    lemma_digits_clean(d6);
    lemma_spec_digits_of_digits(m.enchant_level.0 as nat);
    lemma_digits_clean(d9);
    lemma_bool_no_brackets(m.is_cp);
    lemma_bool_no_brackets(m.is_enchant_cp);
    let c = seq![','];
    assert(no_brackets(c));
    let v10 = d10;
    let v9 = d9 + (c + v10);
    lemma_no_brackets_concat(c, v10);
    lemma_no_brackets_concat(d9, c + v10);
    let v8 = d8 + (c + v9);
    lemma_no_brackets_concat(c, v9);
    lemma_no_brackets_concat(d8, c + v9);
    let v7 = d7 + (c + v8);
    lemma_no_brackets_concat(c, v8);
    lemma_no_brackets_concat(d7, c + v8);
    let v6 = d6 + (c + v7);
    lemma_no_brackets_concat(c, v7);
    lemma_no_brackets_concat(d6, c + v7);
    let v5 = d5 + (c + v6);
    lemma_no_brackets_concat(c, v6);
    lemma_no_brackets_concat(d5, c + v6);
    let v4 = d4 + (c + v5);
    lemma_no_brackets_concat(c, v5);
    lemma_no_brackets_concat(d4, c + v5);
    let v3 = d3 + (c + v4);
    lemma_no_brackets_concat(c, v4);
    lemma_no_brackets_concat(d3, c + v4);
    let v2 = d2 + (c + v3);
    lemma_no_brackets_concat(c, v3);
    lemma_no_brackets_concat(d2, c + v3);
    let v1 = d1 + (c + v2);
    lemma_no_brackets_concat(c, v2);
    lemma_no_brackets_concat(d1, c + v2);
    let v0 = d0 + (c + v1);
    lemma_no_brackets_concat(c, v1);
    lemma_no_brackets_concat(d0, c + v1);
    assert(spec_dump_equipment_info(m) =~= v0);
}

/// Boolean tokens hold no brackets.
proof fn lemma_bool_no_brackets(b: bool)
    ensures
        no_brackets(crate::fields::spec_dump_bool(b)),
{
    reveal_strlit("T");
    reveal_strlit("F");
    assert("T"@.len() == 1);
    assert("F"@.len() == 1);
    assert("T"@[0] == 'T');
    assert("F"@[0] == 'F');
}

/// Parsing a dumped equipment token yields the record.
#[verifier::rlimit(100)]
#[verifier::spinoff_prover]
pub proof fn lemma_parse_equipment_roundtrip(m: EquipmentInfo, rest: Seq<char>)
    requires
        sep_ok(rest),
    ensures
        spec_parse_equipment(spec_dump_equipment(m) + rest) == Ok::<(EquipmentInfo, Seq<char>), Error>((m, chop(rest))),
{
    let inner = spec_dump_equipment_info(m);
    lemma_equipment_inner_no_brackets(m);
    lemma_no_brackets_inner_ok(inner);
    lemma_wrap_list(inner);
    let tok = seq!['['] + inner + seq![']'];
    assert(spec_dump_equipment(m) == tok);
    lemma_next_token_list(tok, rest);
    assert(tok.subrange(1, tok.len() - 1) == inner);
    lemma_parse_equipment_info_roundtrip(m, Seq::<char>::empty());
    assert(inner + Seq::<char>::empty() =~= inner);
}

/// Elements of a bracketed list of unsigned values, read until the inner
/// text is exhausted.
pub open spec fn spec_parse_uint_elems(inner: Seq<char>, max: nat) -> Result<Seq<u64>, Error>
    decreases inner.len(),
{
    if inner.len() == 0 {
        Ok(Seq::empty())
    } else {
        match spec_parse_uint(inner, max) {
            Err(e) => Err(e),
            Ok((v, rest)) => {
                if rest.len() < inner.len() {
                    match spec_parse_uint_elems(rest, max) {
                        Ok(t) => Ok(seq![v as u64] + t),
                        Err(e) => Err(e),
                    }
                } else {
                    Err(Error::ParseIntError)
                }
            },
        }
    }
}

/// A bracketed list of unsigned values.
pub open spec fn spec_parse_list_uint(s: Seq<char>, max: nat) -> Result<(Seq<u64>, Seq<char>), Error> {
    match spec_next_token(s) {
        None => Err(Error::UnexpectedEnd),
        Some((tok, after)) => {
            if !(tok.len() >= 2 && tok[0] == '[' && tok[tok.len() - 1] == ']') {
                Err(Error::NotAList)
            } else {
                match spec_parse_uint_elems(tok.subrange(1, tok.len() - 1), max) {
                    Ok(vs) => Ok((vs, after)),
                    Err(e) => Err(e),
                }
            }
        },
    }
}

/// Comma-joined spellings of the values.
pub open spec fn spec_join_uints(vs: Seq<u64>) -> Seq<char>
    decreases vs.len(),
{
    if vs.len() == 0 {
        Seq::empty()
    } else if vs.len() == 1 {
        spec_dump_uint(vs[0] as nat)
    } else {
        spec_dump_uint(vs[0] as nat) + (seq![','] + spec_join_uints(vs.skip(1)))
    }
}

/// Wire text of a list of unsigned values.
pub open spec fn spec_dump_uint_list(vs: Seq<u64>) -> Seq<char> {
    seq!['['] + spec_join_uints(vs) + seq![']']
}

/// The joined values hold no brackets.
pub proof fn lemma_join_uints_no_brackets(vs: Seq<u64>)
    ensures
        no_brackets(spec_join_uints(vs)),
    decreases vs.len(),
{
    if vs.len() == 0 {
    } else if vs.len() == 1 {
        lemma_spec_digits_of_digits(vs[0] as nat);
        lemma_digits_clean(spec_dump_uint(vs[0] as nat));
    } else {
        lemma_spec_digits_of_digits(vs[0] as nat);
        lemma_digits_clean(spec_dump_uint(vs[0] as nat));
        lemma_join_uints_no_brackets(vs.skip(1));
        assert(no_brackets(seq![',']));
        lemma_no_brackets_concat(seq![','], spec_join_uints(vs.skip(1)));
        lemma_no_brackets_concat(spec_dump_uint(vs[0] as nat), seq![','] + spec_join_uints(vs.skip(1)));
    }
}

/// Reading the joined values back yields the values.
#[verifier::rlimit(100)]
#[verifier::spinoff_prover]
pub proof fn lemma_parse_uint_elems_roundtrip(vs: Seq<u64>, max: nat)
    requires
        forall|i: int| 0 <= i < vs.len() ==> vs[i] <= max,
    ensures
        spec_parse_uint_elems(spec_join_uints(vs), max) == Ok::<Seq<u64>, Error>(vs),
    decreases vs.len(),
{
    if vs.len() == 0 {
        assert(spec_join_uints(vs).len() == 0);
        assert(Ok::<Seq<u64>, Error>(Seq::empty()) == Ok::<Seq<u64>, Error>(vs)) by {
            assert(Seq::<u64>::empty() =~= vs);
        }
    } else if vs.len() == 1 {
        let d = spec_dump_uint(vs[0] as nat);
        lemma_spec_digits_of_digits(vs[0] as nat);
        lemma_parse_uint_roundtrip(vs[0] as nat, max, Seq::<char>::empty());
        assert(d + Seq::<char>::empty() =~= d);
        assert(spec_parse_uint(d, max) == Ok::<(nat, Seq<char>), Error>((vs[0] as nat, Seq::<char>::empty())));
        assert(spec_parse_uint_elems(Seq::<char>::empty(), max) == Ok::<Seq<u64>, Error>(Seq::empty()));
        assert(seq![vs[0]] + Seq::<u64>::empty() =~= vs);
    } else {
        let d = spec_dump_uint(vs[0] as nat);
        let tail = spec_join_uints(vs.skip(1));
        lemma_spec_digits_of_digits(vs[0] as nat);
        lemma_comma_chop(tail);
        lemma_parse_uint_roundtrip(vs[0] as nat, max, seq![','] + tail);
        assert(forall|i: int| 0 <= i < vs.skip(1).len() ==> vs.skip(1)[i] <= max);
        lemma_parse_uint_elems_roundtrip(vs.skip(1), max);
        assert(seq![vs[0]] + vs.skip(1) =~= vs);
        assert((seq![','] + tail).len() >= 1);
    }
}

/// Parsing a dumped list of values yields the values.
pub proof fn lemma_parse_list_uint_roundtrip(vs: Seq<u64>, max: nat, rest: Seq<char>)
    requires
        forall|i: int| 0 <= i < vs.len() ==> vs[i] <= max,
        sep_ok(rest),
    ensures
        spec_parse_list_uint(spec_dump_uint_list(vs) + rest, max) == Ok::<(Seq<u64>, Seq<char>), Error>((vs, chop(rest))),
{
    let inner = spec_join_uints(vs);
    lemma_join_uints_no_brackets(vs);
    lemma_no_brackets_inner_ok(inner);
    lemma_wrap_list(inner);
    let tok = seq!['['] + inner + seq![']'];
    assert(spec_dump_uint_list(vs) == tok);
    lemma_next_token_list(tok, rest);
    assert(tok.subrange(1, tok.len() - 1) == inner);
    lemma_parse_uint_elems_roundtrip(vs, max);
}

/// Reads a bracketed list of unsigned values bounded by `max`.
pub fn parse_list_uint(r: &mut EsoLogReaderLine, max: u64) -> (res: Result<Vec<u64>, Error>)
    requires
        old(r).wf(),
    ensures
        final(r).wf(),
        match spec_parse_list_uint(old(r).remaining(), max as nat) {
            Ok((vs, rest)) => res is Ok && res->Ok_0@ == vs && final(r).remaining() == rest,
            Err(e) => res == Err::<Vec<u64>, Error>(e),
        },
{
    let tok = match r.next() {
        Some(t) => t,
        None => {
            return Err(Error::UnexpectedEnd);
        },
    };
    let tlen = tok.unicode_len();
    if !(tlen >= 2 && tok.get_char(0) == '[' && tok.get_char(tlen - 1) == ']') {
        return Err(Error::NotAList);
    }
    let inner = EsoLogReader::read_vec(tok);
    let mut ir = inner;
    let ghost inner0 = tok@.subrange(1, tok@.len() - 1);
    let ghost after = r.remaining();
    proof {
        assert(ir.remaining() =~= inner0);
    }
    let mut acc: Vec<u64> = Vec::new();
    while !ir.is_depleted()
        invariant
            ir.wf(),
            r.wf(),
            r.remaining() == after,
            match spec_parse_list_uint(old(r).remaining(), max as nat) {
                Ok((vs0, rest0)) => rest0 == after
                    && spec_parse_uint_elems(inner0, max as nat) == Ok::<Seq<u64>, Error>(vs0),
                Err(e0) => spec_parse_uint_elems(inner0, max as nat) == Err::<Seq<u64>, Error>(e0)
                    || (exists|vs0: Seq<u64>| spec_parse_uint_elems(inner0, max as nat) == Ok::<Seq<u64>, Error>(vs0)),
            },
            match spec_parse_uint_elems(ir.remaining(), max as nat) {
                Ok(t) => spec_parse_uint_elems(inner0, max as nat) == Ok::<Seq<u64>, Error>(acc@ + t),
                Err(e) => spec_parse_uint_elems(inner0, max as nat) == Err::<Seq<u64>, Error>(e),
            },
        decreases ir.remaining().len(),
    {
        let ghost rem = ir.remaining();
        let v = match ir.read_uint(max) {
            Ok(v) => v,
            Err(e) => {
                return Err(e);
            },
        };
        proof {
            lemma_digits_end_bounds(rem, 0);
            assert(ir.remaining().len() < rem.len());
            let rem2 = ir.remaining();
            assert(spec_parse_uint_elems(rem, max as nat) == (match spec_parse_uint_elems(rem2, max as nat) {
                Ok(t) => Ok::<Seq<u64>, Error>(seq![v] + t),
                Err(e) => Err::<Seq<u64>, Error>(e),
            }));
        }
        let ghost acc_old = acc@;
        acc.push(v);
        proof {
            match spec_parse_uint_elems(ir.remaining(), max as nat) {
                Ok(t) => {
                    assert(acc@ + t =~= acc_old + (seq![v] + t));
                },
                Err(_) => {},
            }
        }
    }
    proof {
        assert(acc@ + Seq::<u64>::empty() =~= acc@);
    }
    Ok(acc)
}

/// Appends a bracketed list of unsigned values.
pub fn append_uint_list(out: &mut String, vs: &Vec<u64>)
    ensures
        final(out)@ == old(out)@ + spec_dump_uint_list(vs@),
{
    let ghost base = out@;
    out.append("[");
    proof {
        reveal_strlit("[");
        reveal_strlit("]");
        reveal_strlit(",");
        assert("["@ =~= seq!['[']);
        assert("]"@ =~= seq![']']);
        assert(","@ =~= seq![',']);
    }
    proof {
        assert(vs@.take(0) =~= Seq::<u64>::empty());
        assert(out@ =~= base + seq!['['] + spec_join_uints(vs@.take(0)));
    }
    let mut i: usize = 0;
    while i < vs.len()
        invariant
            i <= vs@.len(),
            out@ == base + seq!['['] + spec_join_uints(vs@.take(i as int)),
        decreases vs@.len() - i,
    {
        if i > 0 {
            out.append(",");
            proof {
                reveal_strlit(",");
                assert(","@ =~= seq![',']);
            }
        }
        append_uint(out, vs[i]);
        proof {
            lemma_join_uints_snoc(vs@.take(i as int), vs@[i as int]);
            assert(vs@.take(i as int).push(vs@[i as int]) =~= vs@.take(i as int + 1));
            assert(out@ =~= base + seq!['['] + spec_join_uints(vs@.take(i as int + 1)));
        }
        i = i + 1;
    }
    out.append("]");
    proof {
        assert(vs@.take(vs@.len() as int) =~= vs@);
        assert(out@ =~= base + spec_dump_uint_list(vs@));
    }
}

/// Appending one more value extends the joined spelling.
#[verifier::rlimit(100)]
#[verifier::spinoff_prover]
pub proof fn lemma_join_uints_snoc(vs: Seq<u64>, x: u64)
    ensures
        spec_join_uints(vs.push(x)) == if vs.len() == 0 {
            spec_dump_uint(x as nat)
        } else {
            spec_join_uints(vs) + (seq![','] + spec_dump_uint(x as nat))
        },
    decreases vs.len(),
{
    let p = vs.push(x);
    if vs.len() == 0 {
        assert(p.len() == 1);
        assert(p[0] == x);
    } else if vs.len() == 1 {
        assert(p.len() == 2);
        assert(p[0] == vs[0]);
        assert(p.skip(1) =~= seq![x]);
        assert(spec_join_uints(seq![x]) == spec_dump_uint(x as nat));
    } else {
        lemma_join_uints_snoc(vs.skip(1), x);
        assert(p.skip(1) =~= vs.skip(1).push(x));
        assert(p[0] == vs[0]);
        assert(spec_join_uints(p) == spec_dump_uint(vs[0] as nat) + (seq![','] + spec_join_uints(vs.skip(1).push(x))));
        assert(spec_join_uints(vs) + (seq![','] + spec_dump_uint(x as nat))
            =~= spec_dump_uint(vs[0] as nat) + (seq![','] + (spec_join_uints(vs.skip(1)) + (seq![','] + spec_dump_uint(x as nat)))));
    }
}

/// Wraps raw ability numbers in their identifier type.
pub fn map_ability_id(vs: Vec<u64>) -> (r: Vec<AbilityId>)
    ensures
        r@.map_values(|x: AbilityId| x.0) == vs@,
        r@.len() == vs@.len(),
        forall|i: int| 0 <= i < vs@.len() ==> r@[i] == AbilityId(vs@[i]),
{
    let mut r: Vec<AbilityId> = Vec::new();
    let mut i: usize = 0;
    while i < vs.len()
        invariant
            i <= vs@.len(),
            r@.len() == i,
            forall|j: int| 0 <= j < i ==> r@[j] == AbilityId(vs@[j]),
        decreases vs@.len() - i,
    {
        r.push(AbilityId(vs[i]));
        i = i + 1;
    }
    proof {
        assert(r@.map_values(|x: AbilityId| x.0) =~= vs@);
    }
    r
}

/// Appends a bracketed list of ability identifiers.
pub fn append_uint_list_ability_id(out: &mut String, vs: &Vec<AbilityId>)
    ensures
        final(out)@ == old(out)@ + spec_dump_uint_list(vs@.map_values(|x: AbilityId| x.0)),
{
    let mut raw: Vec<u64> = Vec::new();
    let mut i: usize = 0;
    while i < vs.len()
        invariant
            i <= vs@.len(),
            raw@.len() == i,
            forall|j: int| 0 <= j < i ==> raw@[j] == vs@[j].0,
        decreases vs@.len() - i,
    {
        raw.push(vs[i].0);
        i = i + 1;
    }
    proof {
        assert(raw@ =~= vs@.map_values(|x: AbilityId| x.0));
    }
    append_uint_list(out, &raw);
}

/// Elements of a bracketed list of equipment tokens.
pub open spec fn spec_parse_equipment_elems(inner: Seq<char>) -> Result<Seq<EquipmentInfo>, Error>
    decreases inner.len(),
{
    if inner.len() == 0 {
        Ok(Seq::empty())
    } else {
        match spec_parse_equipment(inner) {
            Err(e) => Err(e),
            Ok((v, rest)) => {
                if rest.len() < inner.len() {
                    match spec_parse_equipment_elems(rest) {
                        Ok(t) => Ok(seq![v] + t),
                        Err(e) => Err(e),
                    }
                } else {
                    Err(Error::NotAList)
                }
            },
        }
    }
}

/// A bracketed list of equipment tokens.
pub open spec fn spec_parse_equipment_list(s: Seq<char>) -> Result<(Seq<EquipmentInfo>, Seq<char>), Error> {
    match spec_next_token(s) {
        None => Err(Error::UnexpectedEnd),
        Some((tok, after)) => {
            if !(tok.len() >= 2 && tok[0] == '[' && tok[tok.len() - 1] == ']') {
                Err(Error::NotAList)
            } else {
                match spec_parse_equipment_elems(tok.subrange(1, tok.len() - 1)) {
                    Ok(vs) => Ok((vs, after)),
                    Err(e) => Err(e),
                }
            }
        },
    }
}

/// Comma-joined equipment tokens.
pub open spec fn spec_join_equipment(vs: Seq<EquipmentInfo>) -> Seq<char>
    decreases vs.len(),
{
    if vs.len() == 0 {
        Seq::empty()
    } else if vs.len() == 1 {
        spec_dump_equipment(vs[0])
    } else {
        spec_dump_equipment(vs[0]) + (seq![','] + spec_join_equipment(vs.skip(1)))
    }
}

/// Wire text of a list of equipment records.
pub open spec fn spec_dump_equipment_list(vs: Seq<EquipmentInfo>) -> Seq<char> {
    seq!['['] + spec_join_equipment(vs) + seq![']']
}

/// The joined equipment tokens stand between brackets of an outer list.
pub proof fn lemma_join_equipment_inner_ok(vs: Seq<EquipmentInfo>)
    ensures
        list_inner_ok(spec_join_equipment(vs)),
    decreases vs.len(),
{
    if vs.len() == 0 {
        assert(spec_join_equipment(vs).len() == 0);
        assert(list_inner_ok(Seq::<char>::empty())) by {
            assert(crate::tokens::bracket_depth(Seq::<char>::empty()) == 0);
            assert forall|i: int| 0 <= i <= 0 implies
                crate::tokens::bracket_depth(#[trigger] Seq::<char>::empty().take(i)) >= 0 by {
                assert(Seq::<char>::empty().take(i) =~= Seq::<char>::empty());
            }
        }
    } else {
        lemma_equipment_token(vs[0]);
        lemma_list_token_inner_ok(spec_dump_equipment(vs[0]));
        if vs.len() == 1 {
        } else {
            lemma_join_equipment_inner_ok(vs.skip(1));
            assert(no_brackets(seq![',']));
            lemma_no_brackets_inner_ok(seq![',']);
            lemma_inner_ok_concat(seq![','], spec_join_equipment(vs.skip(1)));
            lemma_inner_ok_concat(spec_dump_equipment(vs[0]), seq![','] + spec_join_equipment(vs.skip(1)));
        }
    }
}

/// A dumped equipment record is a bracketed token.
pub proof fn lemma_equipment_token(m: EquipmentInfo)
    ensures
        is_list_token(spec_dump_equipment(m)),
        spec_dump_equipment(m).len() >= 2,
{
    lemma_equipment_inner_no_brackets(m);
    lemma_no_brackets_inner_ok(spec_dump_equipment_info(m));
    lemma_wrap_list(spec_dump_equipment_info(m));
}

/// Reading the joined equipment tokens back yields the records.
#[verifier::rlimit(100)]
#[verifier::spinoff_prover]
pub proof fn lemma_parse_equipment_elems_roundtrip(vs: Seq<EquipmentInfo>)
    ensures
        spec_parse_equipment_elems(spec_join_equipment(vs)) == Ok::<Seq<EquipmentInfo>, Error>(vs),
    decreases vs.len(),
{
    if vs.len() == 0 {
        assert(spec_join_equipment(vs).len() == 0);
        assert(Seq::<EquipmentInfo>::empty() =~= vs);
    } else if vs.len() == 1 {
        let d = spec_dump_equipment(vs[0]);
        lemma_equipment_token(vs[0]);
        lemma_parse_equipment_roundtrip(vs[0], Seq::<char>::empty());
        assert(d + Seq::<char>::empty() =~= d);
        assert(spec_parse_equipment_elems(Seq::<char>::empty()) == Ok::<Seq<EquipmentInfo>, Error>(Seq::empty()));
        assert(seq![vs[0]] + Seq::<EquipmentInfo>::empty() =~= vs);
    } else {
        let d = spec_dump_equipment(vs[0]);
        let tail = spec_join_equipment(vs.skip(1));
        lemma_equipment_token(vs[0]);
        lemma_comma_chop(tail);
        lemma_parse_equipment_roundtrip(vs[0], seq![','] + tail);
        lemma_parse_equipment_elems_roundtrip(vs.skip(1));
        assert(seq![vs[0]] + vs.skip(1) =~= vs);
        assert((seq![','] + tail).len() >= 1);
    }
}

/// Parsing a dumped equipment list yields the records.
pub proof fn lemma_parse_equipment_list_roundtrip(vs: Seq<EquipmentInfo>, rest: Seq<char>)
    requires
        sep_ok(rest),
    ensures
        spec_parse_equipment_list(spec_dump_equipment_list(vs) + rest) == Ok::<(Seq<EquipmentInfo>, Seq<char>), Error>((vs, chop(rest))),
{
    let inner = spec_join_equipment(vs);
    lemma_join_equipment_inner_ok(vs);
    lemma_wrap_list(inner);
    let tok = seq!['['] + inner + seq![']'];
    assert(spec_dump_equipment_list(vs) == tok);
    lemma_next_token_list(tok, rest);
    assert(tok.subrange(1, tok.len() - 1) == inner);
    lemma_parse_equipment_elems_roundtrip(vs);
}

/// Reads a bracketed list of equipment tokens.
pub fn parse_equipment_list(r: &mut EsoLogReaderLine) -> (res: Result<Vec<EquipmentInfo>, Error>)
    requires
        old(r).wf(),
    ensures
        final(r).wf(),
        match spec_parse_equipment_list(old(r).remaining()) {
            Ok((vs, rest)) => res is Ok && res->Ok_0@ == vs && final(r).remaining() == rest,
            Err(e) => res == Err::<Vec<EquipmentInfo>, Error>(e),
        },
{
    let tok = match r.next() {
        Some(t) => t,
        None => {
            return Err(Error::UnexpectedEnd);
        },
    };
    let tlen = tok.unicode_len();
    if !(tlen >= 2 && tok.get_char(0) == '[' && tok.get_char(tlen - 1) == ']') {
        return Err(Error::NotAList);
    }
    let inner = EsoLogReader::read_vec(tok);
    let mut ir = inner;
    let ghost inner0 = tok@.subrange(1, tok@.len() - 1);
    let ghost after = r.remaining();
    proof {
        assert(ir.remaining() =~= inner0);
    }
    let mut acc: Vec<EquipmentInfo> = Vec::new();
    while !ir.is_depleted()
        invariant
            ir.wf(),
            r.wf(),
            r.remaining() == after,
            match spec_parse_equipment_list(old(r).remaining()) {
                Ok((vs0, rest0)) => rest0 == after
                    && spec_parse_equipment_elems(inner0) == Ok::<Seq<EquipmentInfo>, Error>(vs0),
                Err(e0) => spec_parse_equipment_elems(inner0) == Err::<Seq<EquipmentInfo>, Error>(e0)
                    || (exists|vs0: Seq<EquipmentInfo>| spec_parse_equipment_elems(inner0) == Ok::<Seq<EquipmentInfo>, Error>(vs0)),
            },
            match spec_parse_equipment_elems(ir.remaining()) {
                Ok(t) => spec_parse_equipment_elems(inner0) == Ok::<Seq<EquipmentInfo>, Error>(acc@ + t),
                Err(e) => spec_parse_equipment_elems(inner0) == Err::<Seq<EquipmentInfo>, Error>(e),
            },
        decreases ir.remaining().len(),
    {
        let ghost rem = ir.remaining();
        let v = match parse_equipment(&mut ir) {
            Ok(v) => v,
            Err(e) => {
                return Err(e);
            },
        };
        proof {
            crate::reader::lemma_token_end_bounds(rem);
            assert(ir.remaining().len() < rem.len());
            let rem2 = ir.remaining();
            assert(spec_parse_equipment_elems(rem) == (match spec_parse_equipment_elems(rem2) {
                Ok(t) => Ok::<Seq<EquipmentInfo>, Error>(seq![v] + t),
                Err(e) => Err::<Seq<EquipmentInfo>, Error>(e),
            }));
        }
        let ghost acc_old = acc@;
        acc.push(v);
        proof {
            match spec_parse_equipment_elems(ir.remaining()) {
                Ok(t) => {
                    assert(acc@ + t =~= acc_old + (seq![v] + t));
                },
                Err(_) => {},
            }
        }
    }
    proof {
        assert(acc@ + Seq::<EquipmentInfo>::empty() =~= acc@);
    }
    Ok(acc)
}

/// Appends a bracketed list of equipment tokens.
pub fn append_equipment_list(out: &mut String, vs: &Vec<EquipmentInfo>)
    ensures
        final(out)@ == old(out)@ + spec_dump_equipment_list(vs@),
{
    let ghost base = out@;
    out.append("[");
    proof {
        reveal_strlit("[");
        reveal_strlit("]");
        reveal_strlit(",");
        assert("["@ =~= seq!['[']);
        assert("]"@ =~= seq![']']);
        assert(","@ =~= seq![',']);
    }
    proof {
        assert(vs@.take(0) =~= Seq::<EquipmentInfo>::empty());
        assert(out@ =~= base + seq!['['] + spec_join_equipment(vs@.take(0)));
    }
    let mut i: usize = 0;
    while i < vs.len()
        invariant
            i <= vs@.len(),
            out@ == base + seq!['['] + spec_join_equipment(vs@.take(i as int)),
        decreases vs@.len() - i,
    {
        if i > 0 {
            out.append(",");
            proof {
                reveal_strlit(",");
                assert(","@ =~= seq![',']);
            }
        }
        append_equipment(out, &vs[i]);
        proof {
            lemma_join_equipment_snoc(vs@.take(i as int), vs@[i as int]);
            assert(vs@.take(i as int).push(vs@[i as int]) =~= vs@.take(i as int + 1));
            assert(out@ =~= base + seq!['['] + spec_join_equipment(vs@.take(i as int + 1)));
        }
        i = i + 1;
    }
    out.append("]");
    proof {
        assert(vs@.take(vs@.len() as int) =~= vs@);
        assert(out@ =~= base + spec_dump_equipment_list(vs@));
    }
}

/// Appending one more equipment token extends the joined spelling.
#[verifier::rlimit(100)]
#[verifier::spinoff_prover]
pub proof fn lemma_join_equipment_snoc(vs: Seq<EquipmentInfo>, x: EquipmentInfo)
    ensures
        spec_join_equipment(vs.push(x)) == if vs.len() == 0 {
            spec_dump_equipment(x)
        } else {
            spec_join_equipment(vs) + (seq![','] + spec_dump_equipment(x))
        },
    decreases vs.len(),
{
    let p = vs.push(x);
    if vs.len() == 0 {
        assert(p.len() == 1);
        assert(p[0] == x);
    } else if vs.len() == 1 {
        assert(p.len() == 2);
        assert(p[0] == vs[0]);
        assert(p.skip(1) =~= seq![x]);
        assert(spec_join_equipment(seq![x]) == spec_dump_equipment(x));
    } else {
        lemma_join_equipment_snoc(vs.skip(1), x);
        assert(p.skip(1) =~= vs.skip(1).push(x));
        assert(p[0] == vs[0]);
        assert(spec_join_equipment(vs) + (seq![','] + spec_dump_equipment(x))
            =~= spec_dump_equipment(vs[0]) + (seq![','] + (spec_join_equipment(vs.skip(1)) + (seq![','] + spec_dump_equipment(x)))));
    }
}

} // verus!
