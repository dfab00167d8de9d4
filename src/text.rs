use vstd::prelude::*;

verus! {

/// Relies on `String::push`: appends one character.
#[verifier::external_body]
pub(crate) fn push_char(s: &mut String, c: char)
    ensures
        final(s)@ == old(s)@.push(c),
{
    s.push(c)
}

/// The characters of `s`, in order.
pub fn chars_of(s: &str) -> (r: Vec<char>)
    ensures
        r@ == s@,
{
    broadcast use vstd::string::group_string_axioms;
    let mut v: Vec<char> = Vec::new();
    for c in it: s.chars()
        invariant
            v@ == it.seq().subrange(0, it.index() as int),
    {
        v.push(c);
    }
    v
}

/// Whether `a` and `b` hold the same characters.
pub fn str_eq(a: &str, b: &str) -> (r: bool)
    ensures
        r == (a@ == b@),
{
    let av = chars_of(a);
    let bv = chars_of(b);
    if av.len() != bv.len() {
        return false;
    }
    let mut i: usize = 0;
    while i < av.len()
        invariant
            av@ == a@,
            bv@ == b@,
            av@.len() == bv@.len(),
            i <= av@.len(),
            forall|j: int| 0 <= j < i ==> av@[j] == bv@[j],
        decreases av@.len() - i,
    {
        if av[i] != bv[i] {
            return false;
        }
        i = i + 1;
    }
    assert(a@ == b@);
    true
}

/// The decimal digit `d`, for `d < 10`.
pub open spec fn digit_char(d: nat) -> char {
    if d == 0 { '0' } else if d == 1 { '1' } else if d == 2 { '2' } else if d == 3 { '3' }
    else if d == 4 { '4' } else if d == 5 { '5' } else if d == 6 { '6' } else if d == 7 { '7' }
    else if d == 8 { '8' } else { '9' }
}

/// Decimal notation of `n`, without leading zeros.
pub open spec fn decimal(n: nat) -> Seq<char>
    decreases n,
{
    if n < 10 {
        seq![digit_char(n)]
    } else {
        decimal(n / 10).push(digit_char(n % 10))
    }
}

/// Decimal notation of a signed `n`, with a leading `-` when negative.
pub open spec fn signed_decimal(n: int) -> Seq<char> {
    if n < 0 {
        seq!['-'] + decimal((-n) as nat)
    } else {
        decimal(n as nat)
    }
}

/// Decimal notation holds digits only, at least one.
pub proof fn lemma_decimal_digits(n: nat)
    ensures
        decimal(n).len() >= 1,
        n < 10 <==> decimal(n).len() == 1,
        forall|i: int| 0 <= i < decimal(n).len() ==> #[trigger] decimal(n)[i] != '_',
    decreases n,
{
    if n >= 10 {
        lemma_decimal_digits(n / 10);
        let d = decimal(n / 10);
        assert forall|i: int| 0 <= i < decimal(n).len() implies #[trigger] decimal(n)[i] != '_' by {
            if i < d.len() {
                assert(decimal(n)[i] == d[i]);
            }
        }
    }
}

/// Distinct numbers have distinct decimal notations.
pub proof fn lemma_decimal_injective(a: nat, b: nat)
    requires
        decimal(a) == decimal(b),
    ensures
        a == b,
    decreases a,
{
    lemma_decimal_digits(a);
    lemma_decimal_digits(b);
    if a < 10 && b < 10 {
        assert(decimal(a)[0] == digit_char(a));
        assert(decimal(b)[0] == digit_char(b));
    } else if a >= 10 && b >= 10 {
        let da = decimal(a);
        assert(da.last() == digit_char(a % 10));
        assert(decimal(b).last() == digit_char(b % 10));
        assert(a % 10 == b % 10);
        assert(da.drop_last() == decimal(a / 10));
        assert(decimal(b).drop_last() == decimal(b / 10));
        lemma_decimal_injective(a / 10, b / 10);
        assert(a == 10 * (a / 10) + a % 10) by (nonlinear_arith);
        assert(b == 10 * (b / 10) + b % 10) by (nonlinear_arith);
    }
}

/// Two numbers joined by `_`, which is no digit, determine the numbers.
pub proof fn lemma_joined_decimals_injective(a: nat, b: nat, c: nat, d: nat)
    requires
        decimal(a) + seq!['_'] + decimal(b) == decimal(c) + seq!['_'] + decimal(d),
    ensures
        a == c,
        b == d,
{
    lemma_decimal_digits(a);
    lemma_decimal_digits(c);
    let x = decimal(a) + seq!['_'] + decimal(b);
    let y = decimal(c) + seq!['_'] + decimal(d);
    let la = decimal(a).len() as int;
    let lc = decimal(c).len() as int;
    if la < lc {
        assert(x[la] == '_');
        assert(y[la] == decimal(c)[la]);
    } else if lc < la {
        assert(y[lc] == '_');
        assert(x[lc] == decimal(a)[lc]);
    }
    assert(x.subrange(0, la) == decimal(a));
    assert(y.subrange(0, lc) == decimal(c));
    lemma_decimal_injective(a, c);
    assert(x.subrange(la + 1, x.len() as int) == decimal(b));
    assert(y.subrange(lc + 1, y.len() as int) == decimal(d));
    lemma_decimal_injective(b, d);
}

fn digit(d: u128) -> (c: char)
    requires
        d < 10,
    ensures
        c == digit_char(d as nat),
{
    if d == 0 { '0' } else if d == 1 { '1' } else if d == 2 { '2' } else if d == 3 { '3' }
    else if d == 4 { '4' } else if d == 5 { '5' } else if d == 6 { '6' } else if d == 7 { '7' }
    else if d == 8 { '8' } else { '9' }
}

/// Appends the decimal notation of `n` to `out`.
pub fn push_decimal(out: &mut String, n: u128)
    ensures
        final(out)@ == old(out)@ + decimal(n as nat),
    decreases n,
{
    if n >= 10 {
        push_decimal(out, n / 10);
    }
    push_char(out, digit(n % 10));
    assert(final(out)@ == old(out)@ + decimal(n as nat));
}

/// Appends the decimal notation of the signed `n` to `out`.
pub fn push_signed_decimal(out: &mut String, n: i64)
    ensures
        final(out)@ == old(out)@ + signed_decimal(n as int),
{
    if n < 0 {
        push_char(out, '-');
        let m: u128 = (0i128 - (n as i128)) as u128;
        push_decimal(out, m);
    } else {
        push_decimal(out, n as u128);
    }
}

/// `s` with every occurrence of `from` replaced by `to`, scanning left to right
/// and never overlapping; an empty `from` leaves `s` as it is.
pub open spec fn replaced(s: Seq<char>, from: Seq<char>, to: Seq<char>) -> Seq<char>
    decreases s.len(),
{
    if from.len() == 0 || s.len() == 0 {
        s
    } else if from.len() <= s.len() && s.subrange(0, from.len() as int) == from {
        to + replaced(s.subrange(from.len() as int, s.len() as int), from, to)
    } else {
        seq![s[0]] + replaced(s.drop_first(), from, to)
    }
}

/// Replaces every occurrence of `from` in `s` by `to`.
pub fn replace_all(s: &str, from: &str, to: &str) -> (r: String)
    ensures
        r@ == replaced(s@, from@, to@),
{
    let sv = chars_of(s);
    let fv = chars_of(from);
    let tv = chars_of(to);
    let n = sv.len();
    let m = fv.len();
    let mut out = String::new();
    if m == 0 {
        let mut k: usize = 0;
        while k < n
            invariant
                sv@ == s@,
                n == sv@.len(),
                k <= n,
                out@ == s@.subrange(0, k as int),
            decreases n - k,
        {
            push_char(&mut out, sv[k]);
            k = k + 1;
        }
        assert(s@.subrange(0, n as int) == s@);
        return out;
    }
    let mut i: usize = 0;
    assert(s@.subrange(0, n as int) == s@);
    while i < n
        invariant
            sv@ == s@,
            fv@ == from@,
            tv@ == to@,
            n == sv@.len(),
            m == fv@.len(),
            m > 0,
            i <= n,
            replaced(s@, from@, to@) == out@ + replaced(s@.subrange(i as int, n as int), from@, to@),
        decreases n - i,
    {
        let ghost rest = s@.subrange(i as int, n as int);
        let mut hit = m <= n - i;
        let mut k: usize = 0;
        while hit && k < m
            invariant
                sv@ == s@,
                fv@ == from@,
                n == sv@.len(),
                m == fv@.len(),
                i < n,
                k <= m,
                hit ==> m <= n - i,
                hit ==> forall|j: int| 0 <= j < k ==> sv@[i + j] == fv@[j],
                !hit ==> !(m <= n - i && rest.subrange(0, m as int) == from@),
                rest == s@.subrange(i as int, n as int),
            decreases m - k,
        {
            if sv[i + k] != fv[k] {
                assert(rest[k as int] == sv@[i + k]);
                hit = false;
            }
            k = k + 1;
        }
        if hit {
            assert(rest.subrange(0, m as int) == from@);
            assert(rest.subrange(m as int, rest.len() as int) == s@.subrange((i + m) as int, n as int));
            let ghost before = out@;
            let mut t: usize = 0;
            while t < tv.len()
                invariant
                    tv@ == to@,
                    t <= tv@.len(),
                    out@ == before + to@.subrange(0, t as int),
                decreases tv@.len() - t,
            {
                push_char(&mut out, tv[t]);
                t = t + 1;
            }
            assert(to@.subrange(0, tv@.len() as int) == to@);
            i = i + m;
        } else {
            assert(rest.drop_first() == s@.subrange((i + 1) as int, n as int));
            push_char(&mut out, sv[i]);
            i = i + 1;
        }
    }
    assert(s@.subrange(n as int, n as int).len() == 0);
    out
}

} // verus!
