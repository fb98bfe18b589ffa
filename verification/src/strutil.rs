use vstd::prelude::*;

verus! {

/// Compares two string slices character by character.
pub fn str_eq(a: &str, b: &str) -> (r: bool)
    ensures
        r == (a@ == b@),
{
    let la = a.unicode_len();
    let lb = b.unicode_len();
    if la != lb {
        return false;
    }
    let mut i: usize = 0;
    while i < la
        invariant
            la == a@.len(),
            la == b@.len(),
            0 <= i <= la,
            forall|j: int| 0 <= j < i ==> a@[j] == b@[j],
        decreases la - i,
    {
        if a.get_char(i) != b.get_char(i) {
            return false;
        }
        i = i + 1;
    }
    proof {
        assert(a@ =~= b@);
    }
    true
}

/// A decimal digit.
pub open spec fn is_digit(c: char) -> bool {
    '0' <= c && c <= '9'
}

/// Numeric value of a decimal digit.
pub open spec fn digit_val(c: char) -> nat {
    (c as nat - '0' as nat) as nat
}

/// Value of a run of decimal digits, most significant first.
pub open spec fn digits_val(s: Seq<char>) -> nat
    decreases s.len(),
{
    if s.len() == 0 {
        0
    } else {
        digits_val(s.drop_last()) * 10 + digit_val(s.last())
    }
}

/// The digit character for a value below ten.
pub open spec fn digit_char(v: nat) -> char {
    if v == 0 { '0' }
    else if v == 1 { '1' }
    else if v == 2 { '2' }
    else if v == 3 { '3' }
    else if v == 4 { '4' }
    else if v == 5 { '5' }
    else if v == 6 { '6' }
    else if v == 7 { '7' }
    else if v == 8 { '8' }
    else { '9' }
}

/// Shortest decimal spelling of a natural number, no leading zeros.
pub open spec fn spec_digits_of(v: nat) -> Seq<char>
    decreases v,
{
    if v < 10 {
        seq![digit_char(v)]
    } else {
        spec_digits_of(v / 10).push(digit_char(v % 10))
    }
}

pub proof fn lemma_spec_digits_of_digits(v: nat)
    ensures
        spec_digits_of(v).len() >= 1,
        forall|i: int| 0 <= i < spec_digits_of(v).len() ==> is_digit(#[trigger] spec_digits_of(v)[i]),
        v >= 1 ==> spec_digits_of(v)[0] != '0',
    decreases v,
{
    if v >= 10 {
        lemma_spec_digits_of_digits(v / 10);
    }
}

pub proof fn lemma_digits_of_roundtrip(v: nat)
    ensures
        digits_val(spec_digits_of(v)) == v,
    decreases v,
{
    if v < 10 {
        assert(spec_digits_of(v) =~= seq![digit_char(v)]);
        assert(seq![digit_char(v)].drop_last() =~= Seq::<char>::empty());
        assert(digits_val(Seq::<char>::empty()) == 0);
        assert(digits_val(seq![digit_char(v)]) == digit_val(digit_char(v)));
    } else {
        lemma_digits_of_roundtrip(v / 10);
        let s = spec_digits_of(v);
        assert(s.drop_last() =~= spec_digits_of(v / 10));
        assert(digits_val(s) == digits_val(spec_digits_of(v / 10)) * 10 + digit_val(digit_char(v % 10)));
    }
}

/// Appending one more digit multiplies the value by ten.
pub proof fn lemma_digits_val_monotone(s: Seq<char>, t: Seq<char>)
    requires
        s.len() <= t.len(),
        forall|i: int| 0 <= i < s.len() ==> s[i] == t[i],
        forall|i: int| 0 <= i < t.len() ==> is_digit(#[trigger] t[i]),
    ensures
        digits_val(s) <= digits_val(t),
    decreases t.len(),
{
    if t.len() > s.len() {
        lemma_digits_val_monotone(s, t.drop_last());
        assert(digits_val(t) == digits_val(t.drop_last()) * 10 + digit_val(t.last()));
        assert(digits_val(t.drop_last()) * 10 >= digits_val(t.drop_last())) by (nonlinear_arith);
    } else {
        assert(s =~= t);
    }
}

} // verus!
