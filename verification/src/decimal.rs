//! Natural numbers written in decimal digits, of any length.
use vstd::prelude::*;

verus! {

pub open spec fn is_digit(c: char) -> bool {
    '0' <= c && c <= '9'
}

pub open spec fn digit_value(c: char) -> nat {
    (c as nat - '0' as nat) as nat
}

/// All characters of `d` are ASCII digits.
pub open spec fn all_digits(d: Seq<char>) -> bool {
    forall|i: int| 0 <= i < d.len() ==> is_digit(#[trigger] d[i])
}

/// The number that the digits `d` write; the empty sequence writes 0.
pub open spec fn digits_value(d: Seq<char>) -> nat
    decreases d.len(),
{
    if d.len() == 0 {
        0
    } else {
        10 * digits_value(d.drop_last()) + digit_value(d.last())
    }
}

/// Digits without leading zeros: the way `n` is written when it is not 0.
pub open spec fn canonical(d: Seq<char>) -> bool {
    all_digits(d) && (d.len() > 0 ==> d[0] != '0')
}

pub open spec fn pow10(n: nat) -> nat
    decreases n,
{
    if n == 0 {
        1
    } else {
        10 * pow10((n - 1) as nat)
    }
}

pub proof fn lemma_pow10_positive(n: nat)
    ensures
        pow10(n) >= 1,
    decreases n,
{
    if n > 0 {
        lemma_pow10_positive((n - 1) as nat);
    }
}

/// The value of digits written one after the other.
pub proof fn lemma_value_concat(p: Seq<char>, q: Seq<char>)
    ensures
        digits_value(p + q) == digits_value(p) * pow10(q.len()) + digits_value(q),
    decreases q.len(),
{
    let a = digits_value(p);
    if q.len() == 0 {
        assert(p + q =~= p);
        assert(digits_value(q) == 0);
        assert(pow10(0) == 1);
        assert(a * 1 == a) by (nonlinear_arith);
    } else {
        let pq = p + q;
        assert(pq.drop_last() =~= p + q.drop_last());
        assert(pq.last() == q.last());
        lemma_value_concat(p, q.drop_last());
        let b = digits_value(q.drop_last());
        let e = pow10((q.len() - 1) as nat);
        let x = digit_value(q.last());
        assert(digits_value(pq) == 10 * (a * e + b) + x);
        assert(digits_value(q) == 10 * b + x);
        assert(pow10(q.len()) == 10 * e);
        assert(10 * (a * e + b) + x == a * (10 * e) + (10 * b + x)) by (nonlinear_arith);
    }
}

/// Digits write a number below the power of ten of their length.
pub proof fn lemma_value_below(d: Seq<char>)
    requires
        all_digits(d),
    ensures
        digits_value(d) < pow10(d.len()),
    decreases d.len(),
{
    if d.len() > 0 {
        assert(all_digits(d.drop_last())) by {
            assert forall|i: int| 0 <= i < d.drop_last().len() implies is_digit(#[trigger] d.drop_last()[i]) by {
                assert(d.drop_last()[i] == d[i]);
            }
        }
        lemma_value_below(d.drop_last());
        assert(is_digit(d[d.len() - 1]));
    }
}

/// Canonical digits of length `k > 0` write at least `10^(k-1)`.
pub proof fn lemma_value_at_least(d: Seq<char>)
    requires
        canonical(d),
        d.len() > 0,
    ensures
        digits_value(d) >= pow10((d.len() - 1) as nat),
    decreases d.len(),
{
    if d.len() == 1 {
        assert(d.last() == d[0]);
        assert(is_digit(d[0]));
        assert(digits_value(d.drop_last()) == 0);
    } else {
        let e = d.drop_last();
        assert(e[0] == d[0]);
        assert(canonical(e)) by {
            assert forall|i: int| 0 <= i < e.len() implies is_digit(#[trigger] e[i]) by {
                assert(e[i] == d[i]);
            }
        }
        lemma_value_at_least(e);
    }
}

/// Canonical digits of different lengths: the shorter writes the smaller number.
pub proof fn lemma_shorter_is_smaller(a: Seq<char>, b: Seq<char>)
    requires
        canonical(a),
        canonical(b),
        a.len() < b.len(),
    ensures
        digits_value(a) < digits_value(b),
{
    lemma_value_below(a);
    lemma_value_at_least(b);
    lemma_pow10_monotone(a.len(), (b.len() - 1) as nat);
}

pub proof fn lemma_pow10_monotone(m: nat, n: nat)
    requires
        m <= n,
    ensures
        pow10(m) <= pow10(n),
    decreases n,
{
    if m < n {
        lemma_pow10_monotone(m, (n - 1) as nat);
    }
}

/// Digits of the same length that agree up to `i` and have a greater digit
/// at `i` write the greater number.
pub proof fn lemma_first_difference(a: Seq<char>, b: Seq<char>, i: int)
    requires
        all_digits(a),
        all_digits(b),
        a.len() == b.len(),
        0 <= i < a.len(),
        a.take(i) == b.take(i),
        digit_value(a[i]) > digit_value(b[i]),
    ensures
        digits_value(a) > digits_value(b),
{
    let p = a.take(i);
    let ra = a.skip(i + 1);
    let rb = b.skip(i + 1);
    assert(a =~= p + seq![a[i]] + ra);
    assert(b =~= p + seq![b[i]] + rb);
    lemma_value_concat(p + seq![a[i]], ra);
    lemma_value_concat(p + seq![b[i]], rb);
    assert((p + seq![a[i]]).drop_last() =~= p);
    assert((p + seq![b[i]]).drop_last() =~= p);
    assert(all_digits(rb)) by {
        assert forall|j: int| 0 <= j < rb.len() implies is_digit(#[trigger] rb[j]) by {
            assert(rb[j] == b[i + 1 + j]);
        }
    }
    lemma_value_below(rb);
    let vp = digits_value(p);
    let x = digit_value(a[i]);
    let y = digit_value(b[i]);
    let e = pow10(ra.len());
    assert(ra.len() == rb.len());
    let va = digits_value(ra);
    let vb = digits_value(rb);
    assert((10 * vp + x) * e + va > (10 * vp + y) * e + vb) by (nonlinear_arith)
        requires
            x > y,
            vb < e,
            va >= 0,
    ;
}

pub open spec fn repeat(c: char, n: nat) -> Seq<char> {
    Seq::new(n, |i: int| c)
}

pub proof fn lemma_zeros_value(n: nat)
    ensures
        digits_value(repeat('0', n)) == 0,
    decreases n,
{
    if n > 0 {
        assert(repeat('0', n).drop_last() =~= repeat('0', (n - 1) as nat));
        lemma_zeros_value((n - 1) as nat);
    }
}

pub proof fn lemma_nines_value(n: nat)
    ensures
        digits_value(repeat('9', n)) + 1 == pow10(n),
    decreases n,
{
    if n > 0 {
        assert(repeat('9', n).drop_last() =~= repeat('9', (n - 1) as nat));
        lemma_nines_value((n - 1) as nat);
    }
}

/// Leading zeros do not change the number.
pub proof fn lemma_leading_zeros(z: nat, d: Seq<char>)
    ensures
        digits_value(repeat('0', z) + d) == digits_value(d),
{
    lemma_value_concat(repeat('0', z), d);
    lemma_zeros_value(z);
}

pub open spec fn digit_char(d: nat) -> char {
    if d == 0 { '0' } else if d == 1 { '1' } else if d == 2 { '2' } else if d == 3 { '3' }
    else if d == 4 { '4' } else if d == 5 { '5' } else if d == 6 { '6' } else if d == 7 { '7' }
    else if d == 8 { '8' } else { '9' }
}

pub proof fn lemma_digit_char(c: char)
    requires
        is_digit(c),
    ensures
        digit_char(digit_value(c)) == c,
        digit_value(c) < 10,
{
}

pub proof fn lemma_digit_value_of_char(d: nat)
    requires
        d < 10,
    ensures
        digit_value(digit_char(d)) == d,
        is_digit(digit_char(d)),
{
}

/// The decimal digits of `n`.
pub open spec fn decimal(n: nat) -> Seq<char>
    decreases n,
{
    if n < 10 {
        seq![digit_char(n)]
    } else {
        decimal(n / 10).push(digit_char(n % 10))
    }
}

/// Canonical digits of a number other than 0 are its decimal writing.
pub proof fn lemma_decimal_of_value(d: Seq<char>)
    requires
        canonical(d),
        d.len() > 0,
    ensures
        decimal(digits_value(d)) == d,
    decreases d.len(),
{
    let v = digits_value(d);
    let x = digit_value(d.last());
    assert(is_digit(d[d.len() - 1]));
    lemma_digit_char(d.last());
    if d.len() == 1 {
        assert(digits_value(d.drop_last()) == 0);
        assert(d =~= seq![d.last()]);
    } else {
        let e = d.drop_last();
        assert(e[0] == d[0]);
        assert(canonical(e)) by {
            assert forall|i: int| 0 <= i < e.len() implies is_digit(#[trigger] e[i]) by {
                assert(e[i] == d[i]);
            }
        }
        lemma_value_at_least(e);
        lemma_pow10_positive((e.len() - 1) as nat);
        lemma_decimal_of_value(e);
        let ve = digits_value(e);
        assert(v == 10 * ve + x);
        assert(v / 10 == ve && v % 10 == x) by (nonlinear_arith)
            requires
                v == 10 * ve + x,
                x < 10,
        ;
        assert(v >= 10);
        assert(d =~= e.push(d.last()));
    }
}

/// The decimal writing of `n` is canonical and writes `n`.
pub proof fn lemma_value_of_decimal(n: nat)
    ensures
        digits_value(decimal(n)) == n,
        all_digits(decimal(n)),
        n > 0 ==> canonical(decimal(n)),
        decimal(n).len() > 0,
    decreases n,
{
    if n < 10 {
        lemma_digit_value_of_char(n);
        let d = decimal(n);
        assert(d.drop_last() =~= seq![]);
        assert(digits_value(d.drop_last()) == 0);
        assert(d.last() == digit_char(n));
    } else {
        lemma_value_of_decimal(n / 10);
        lemma_digit_value_of_char(n % 10);
        let d = decimal(n);
        assert(d.drop_last() =~= decimal(n / 10));
        assert(d.last() == digit_char(n % 10));
        assert(10 * (n / 10) + n % 10 == n) by (nonlinear_arith);
        assert(n / 10 > 0) by (nonlinear_arith)
            requires
                n >= 10,
        ;
        assert(d[0] == decimal(n / 10)[0]);
        assert(canonical(d)) by {
            assert forall|i: int| 0 <= i < d.len() implies is_digit(#[trigger] d[i]) by {
                if i < d.len() - 1 {
                    assert(d[i] == decimal(n / 10)[i]);
                }
            }
        }
    }
}

} // verus!

verus! {

/// The run of ASCII digits at the start of `s`.
pub open spec fn leading_digits(s: Seq<char>) -> Seq<char>
    decreases s.len(),
{
    if s.len() > 0 && is_digit(s[0]) {
        seq![s[0]] + leading_digits(s.drop_first())
    } else {
        seq![]
    }
}

pub proof fn lemma_leading_digits(s: Seq<char>, k: int)
    requires
        0 <= k <= s.len(),
        forall|i: int| 0 <= i < k ==> is_digit(#[trigger] s[i]),
        k == s.len() || !is_digit(s[k]),
    ensures
        leading_digits(s) == s.take(k),
    decreases k,
{
    if k == 0 {
        assert(s.take(0) =~= seq![]);
    } else {
        let t = s.drop_first();
        assert forall|i: int| 0 <= i < k - 1 implies is_digit(#[trigger] t[i]) by {
            assert(t[i] == s[i + 1]);
        }
        if k < s.len() {
            assert(t[k - 1] == s[k]);
        }
        lemma_leading_digits(t, k - 1);
        assert(s.take(k) =~= seq![s[0]] + t.take(k - 1));
    }
}

/// `n` written with at least two digits, as `{:02}` writes it.
pub open spec fn padded2(n: nat) -> Seq<char> {
    if n < 10 {
        seq!['0'] + decimal(n)
    } else {
        decimal(n)
    }
}

/// Whether `a` writes a greater number than `b`.
pub fn greater(a: &Vec<char>, b: &Vec<char>) -> (r: bool)
    requires
        canonical(a@),
        canonical(b@),
    ensures
        r == (digits_value(a@) > digits_value(b@)),
{
    if a.len() != b.len() {
        proof {
            if a@.len() < b@.len() {
                lemma_shorter_is_smaller(a@, b@);
            } else {
                lemma_shorter_is_smaller(b@, a@);
            }
        }
        return a.len() > b.len();
    }
    let n = a.len();
    let mut i: usize = 0;
    while i < n
        invariant
            canonical(a@),
            canonical(b@),
            n == a@.len(),
            n == b@.len(),
            i <= n,
            a@.take(i as int) == b@.take(i as int),
        decreases n - i,
    {
        if a[i] != b[i] {
            proof {
                assert(is_digit(a@[i as int]) && is_digit(b@[i as int]));
                if a@[i as int] > b@[i as int] {
                    lemma_first_difference(a@, b@, i as int);
                } else {
                    lemma_first_difference(b@, a@, i as int);
                }
            }
            return a[i] > b[i];
        }
        proof {
            assert(a@.take(i + 1) =~= a@.take(i as int).push(a@[i as int]));
            assert(b@.take(i + 1) =~= b@.take(i as int).push(b@[i as int]));
        }
        i = i + 1;
    }
    proof {
        assert(a@ =~= a@.take(n as int));
        assert(b@ =~= b@.take(n as int));
    }
    false
}

/// The digits `v[from..to]` without their leading zeros.
pub fn strip_zeros(v: &Vec<char>, from: usize, to: usize) -> (r: Vec<char>)
    requires
        from <= to <= v@.len(),
        all_digits(v@.subrange(from as int, to as int)),
    ensures
        canonical(r@),
        digits_value(r@) == digits_value(v@.subrange(from as int, to as int)),
{
    let mut z = from;
    while z < to && v[z] == '0'
        invariant
            from <= z <= to <= v@.len(),
            forall|i: int| from <= i < z ==> v@[i] == '0',
        decreases to - z,
    {
        z = z + 1;
    }
    let mut r: Vec<char> = Vec::new();
    let mut i = z;
    while i < to
        invariant
            z <= i <= to <= v@.len(),
            r@ == v@.subrange(z as int, i as int),
        decreases to - i,
    {
        r.push(v[i]);
        i = i + 1;
    }
    proof {
        let whole = v@.subrange(from as int, to as int);
        assert(whole =~= repeat('0', (z - from) as nat) + r@);
        lemma_leading_zeros((z - from) as nat, r@);
        assert forall|j: int| 0 <= j < r@.len() implies is_digit(#[trigger] r@[j]) by {
            assert(r@[j] == whole[(z - from) + j]);
        }
    }
    r
}

fn next_digit(c: char) -> (d: char)
    requires
        is_digit(c),
        c != '9',
    ensures
        is_digit(d),
        digit_value(d) == digit_value(c) + 1,
{
    if c == '0' { '1' } else if c == '1' { '2' } else if c == '2' { '3' } else if c == '3' { '4' }
    else if c == '4' { '5' } else if c == '5' { '6' } else if c == '6' { '7' } else if c == '7' { '8' }
    else { '9' }
}

/// The digits of the number one greater.
pub fn increment(d: &Vec<char>) -> (r: Vec<char>)
    requires
        canonical(d@),
    ensures
        canonical(r@),
        r@.len() > 0,
        digits_value(r@) == digits_value(d@) + 1,
{
    let n = d.len();
    let mut j = n;
    while j > 0 && d[j - 1] == '9'
        invariant
            j <= n == d@.len(),
            forall|i: int| j <= i < n ==> d@[i] == '9',
        decreases j,
    {
        j = j - 1;
    }
    let mut r: Vec<char> = Vec::new();
    if j == 0 {
        r.push('1');
    } else {
        let mut i: usize = 0;
        while i < j - 1
            invariant
                0 < j <= n == d@.len(),
                i <= j - 1,
                r@ == d@.take(i as int),
            decreases j - 1 - i,
        {
            r.push(d[i]);
            i = i + 1;
            proof {
                assert(r@ =~= d@.take(i as int));
            }
        }
        proof {
            assert(is_digit(d@[j - 1]));
        }
        r.push(next_digit(d[j - 1]));
    }
    let ghost head = r@;
    let mut k = j;
    while k < n
        invariant
            j <= k <= n,
            r@ == head + repeat('0', (k - j) as nat),
        decreases n - k,
    {
        r.push('0');
        k = k + 1;
        proof {
            assert(r@ =~= head + repeat('0', (k - j) as nat));
        }
    }
    proof {
        let m = (n - j) as nat;
        lemma_value_concat(head, repeat('0', m));
        lemma_zeros_value(m);
        lemma_nines_value(m);
        lemma_pow10_positive(m);
        let e = pow10(m);
        let vh = digits_value(head);
        let vd = digits_value(d@);
        let w: nat = if j == 0 { 0 } else { digits_value(d@.take(j - 1) + seq![d@[j - 1]]) };
        if j == 0 {
            assert(d@ =~= repeat('9', m));
            assert(head =~= seq!['1']);
            assert(digits_value(head) == 1) by {
                assert(head.drop_last() =~= seq![]);
                assert(digits_value(head.drop_last()) == 0);
                lemma_digit_value_of_char(1);
                assert(head.last() == '1');
            }
        } else {
            let p = d@.take(j - 1);
            let x = d@[j - 1];
            assert(d@ =~= (p + seq![x]) + repeat('9', m));
            lemma_value_concat(p + seq![x], repeat('9', m));
            assert((p + seq![x]).drop_last() =~= p);
            assert(head.drop_last() =~= p);
            assert(digits_value(head) == digits_value(p + seq![x]) + 1);
            if j > 1 {
                assert(head[0] == d@[0]);
            }
        }
        assert(vh * e == vd + 1) by (nonlinear_arith)
            requires
                (vh == 1 && vd + 1 == e) || (vh == w + 1 && vd == w * e + (e - 1) && e >= 1),
        ;
        assert forall|i: int| 0 <= i < r@.len() implies is_digit(#[trigger] r@[i]) by {
            if i < head.len() {
                assert(r@[i] == head[i]);
                if j > 0 && i < j - 1 {
                    assert(head[i] == d@[i]);
                }
            }
        }
    }
    r
}

fn digit_str(c: char) -> (s: &'static str)
    requires
        is_digit(c),
    ensures
        s@ == seq![c],
{
    if c == '0' { proof { reveal_strlit("0"); } "0" }
    else if c == '1' { proof { reveal_strlit("1"); } "1" }
    else if c == '2' { proof { reveal_strlit("2"); } "2" }
    else if c == '3' { proof { reveal_strlit("3"); } "3" }
    else if c == '4' { proof { reveal_strlit("4"); } "4" }
    else if c == '5' { proof { reveal_strlit("5"); } "5" }
    else if c == '6' { proof { reveal_strlit("6"); } "6" }
    else if c == '7' { proof { reveal_strlit("7"); } "7" }
    else if c == '8' { proof { reveal_strlit("8"); } "8" }
    else { proof { reveal_strlit("9"); } "9" }
}

/// Writes the number of the digits `d` with at least two digits.
pub fn write_padded(d: &Vec<char>) -> (s: String)
    requires
        canonical(d@),
        d@.len() > 0,
    ensures
        s@ == padded2(digits_value(d@)),
{
    let mut s = String::new();
    if d.len() == 1 {
        s.append("0");
        proof {
            reveal_strlit("0");
        }
    }
    let ghost start = s@;
    let n = d.len();
    let mut i: usize = 0;
    while i < n
        invariant
            n == d@.len(),
            canonical(d@),
            i <= n,
            s@ == start + d@.take(i as int),
        decreases n - i,
    {
        s.append(digit_str(d[i]));
        i = i + 1;
        proof {
            assert(s@ =~= start + d@.take(i as int));
        }
    }
    proof {
        assert(d@.take(n as int) =~= d@);
        lemma_decimal_of_value(d@);
        lemma_value_below(d@);
        lemma_value_at_least(d@);
        if n >= 2 {
            lemma_pow10_monotone(1, (n - 1) as nat);
            assert(pow10(1) == 10) by {
                assert(pow10(0) == 1);
            }
        } else {
            assert(pow10(1) == 10) by {
                assert(pow10(0) == 1);
            }
        }
    }
    s
}

} // verus!
