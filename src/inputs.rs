use vstd::prelude::*;

verus! {

pub open spec fn is_digit(c: char) -> bool {
    '0' <= c && c <= '9'
}

pub open spec fn all_digits(d: Seq<char>) -> bool {
    forall|i: int| 0 <= i < d.len() ==> is_digit(#[trigger] d[i])
}

/// The value of a string of decimal digits, most significant first.
pub open spec fn digits_value(d: Seq<char>) -> nat
    decreases d.len(),
{
    if d.len() == 0 {
        0
    } else {
        digits_value(d.drop_last()) * 10 + (d.last() as nat - '0' as nat) as nat
    }
}

/// The digits of `s` after an optional leading `+`.
pub open spec fn unsigned_digits(s: Seq<char>) -> Seq<char> {
    if s.len() > 0 && s[0] == '+' {
        s.drop_first()
    } else {
        s
    }
}

/// `s` writes an integer in decimal: an optional `+`, then one or more ASCII digits.
pub open spec fn is_decimal(s: Seq<char>) -> bool {
    unsigned_digits(s).len() > 0 && all_digits(unsigned_digits(s))
}

/// A public input's value: the integer it writes in decimal (read into the
/// field modulo its prime), or zero when it writes none.
pub open spec fn public_input_value(s: Seq<char>) -> nat {
    if is_decimal(s) {
        digits_value(unsigned_digits(s))
    } else {
        0
    }
}

/// Digits with no superfluous leading zero: the form the field's decimal reader takes.
pub open spec fn canonical_decimal(t: Seq<char>) -> bool {
    &&& t.len() > 0
    &&& all_digits(t)
    &&& (t[0] != '0' || t.len() == 1)
}

proof fn lemma_zeros_value(d: Seq<char>)
    requires
        forall|i: int| 0 <= i < d.len() ==> d[i] == '0',
    ensures
        digits_value(d) == 0,
    decreases d.len(),
{
    if d.len() > 0 {
        lemma_zeros_value(d.drop_last());
    }
}

proof fn lemma_leading_zeros(d: Seq<char>, k: int)
    requires
        0 <= k <= d.len(),
        forall|i: int| 0 <= i < k ==> d[i] == '0',
    ensures
        digits_value(d) == digits_value(d.subrange(k, d.len() as int)),
    decreases d.len(),
{
    if d.len() == k {
        lemma_zeros_value(d);
        assert(d.subrange(k, d.len() as int) =~= Seq::<char>::empty());
    } else {
        lemma_leading_zeros(d.drop_last(), k);
        assert(d.subrange(k, d.len() as int).drop_last() =~= d.drop_last().subrange(
            k,
            d.len() - 1,
        ));
    }
}

/// The canonical decimal digits of a public input's value: `"0"` for a
/// string that writes no integer, else its digits without sign or leading zeros.
pub fn canonical_digits<'a>(s: &'a str) -> (r: &'a str)
    ensures
        canonical_decimal(r@),
        digits_value(r@) == public_input_value(s@),
{
    proof {
        reveal_strlit("0");
        assert("0"@ =~= seq!['0']);
        assert(seq!['0'].drop_last() =~= Seq::<char>::empty());
        assert(digits_value(Seq::<char>::empty()) == 0);
        assert(digits_value(seq!['0']) == 0);
        assert(canonical_decimal("0"@));
    }
    let len = s.unicode_len();
    let mut start: usize = 0;
    if len > 0 && s.get_char(0) == '+' {
        start = 1;
    }
    let ghost d = unsigned_digits(s@);
    assert(d =~= s@.subrange(start as int, len as int));
    if start == len {
        return "0";
    }
    let mut i: usize = start;
    while i < len
        invariant
            start <= i <= len,
            len == s@.len(),
            d =~= s@.subrange(start as int, len as int),
            d == unsigned_digits(s@),
            digits_value("0"@) == 0,
            canonical_decimal("0"@),
            forall|j: int| 0 <= j < i - start ==> is_digit(#[trigger] d[j]),
        decreases len - i,
    {
        let c = s.get_char(i);
        assert(d[i - start] == c);
        if !('0' <= c && c <= '9') {
            assert(!is_digit(d[i - start]));
            return "0";
        }
        i = i + 1;
    }
    assert(all_digits(d));
    let mut k: usize = start;
    while k < len && s.get_char(k) == '0'
        invariant
            start <= k <= len,
            len == s@.len(),
            d =~= s@.subrange(start as int, len as int),
            d == unsigned_digits(s@),
            all_digits(d),
            digits_value("0"@) == 0,
            canonical_decimal("0"@),
            forall|j: int| 0 <= j < k - start ==> #[trigger] d[j] == '0',
        decreases len - k,
    {
        k = k + 1;
    }
    proof {
        lemma_leading_zeros(d, k - start);
    }
    if k == len {
        proof {
            assert(d.subrange(k - start, d.len() as int) =~= Seq::<char>::empty());
        }
        return "0";
    }
    let r = s.substring_char(k, len);
    assert(r@ =~= d.subrange(k - start, d.len() as int));
    r
}

} // verus!
