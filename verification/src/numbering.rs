//! The numbers of the files in a plan directory.
use vstd::prelude::*;

use crate::decimal::{
    all_digits, canonical, decimal, digit_value, digits_value, greater, increment, is_digit,
    lemma_digit_value_of_char, lemma_leading_digits, lemma_leading_zeros, lemma_value_of_decimal,
    leading_digits, padded2, strip_zeros, write_padded,
};
use crate::text::{chars_of, views};

verus! {

/// The number that a file name starts with: the value of the whole run of
/// ASCII digits at its start, however long; nothing when the name does not
/// start with a digit.
pub open spec fn prefix_number(name: Seq<char>) -> Option<nat> {
    let d = leading_digits(name);
    if d.len() > 0 {
        Some(digits_value(d))
    } else {
        None
    }
}

/// The greatest number among the prefixes of `names`.
pub open spec fn max_prefix(names: Seq<Seq<char>>) -> Option<nat>
    decreases names.len(),
{
    if names.len() == 0 {
        None
    } else {
        let m = max_prefix(names.drop_last());
        match prefix_number(names.last()) {
            None => m,
            Some(x) => match m {
                None => Some(x),
                Some(y) => Some(if x > y { x } else { y }),
            },
        }
    }
}

/// The number of the next clarification: one more than the greatest prefix
/// in the plan directory, or 4 (after the three initial files) when no file
/// has a numeric prefix.
pub open spec fn next_number(names: Seq<Seq<char>>) -> nat {
    match max_prefix(names) {
        Some(m) => m + 1,
        None => 4,
    }
}

/// The file name of the clarification numbered `k` with the slug `name`:
/// `k` with at least two digits, then `-<name>-clarity.md`.
pub open spec fn clarity_name(k: nat, name: Seq<char>) -> Seq<char> {
    padded2(k) + "-"@ + name + "-clarity.md"@
}

/// The leading digits of `name`, without leading zeros, when it has any.
fn prefix_of(name: &str) -> (r: Option<Vec<char>>)
    ensures
        match r {
            Some(d) => canonical(d@) && prefix_number(name@) == Some(digits_value(d@)),
            None => prefix_number(name@) is None,
        },
{
    let v = chars_of(name);
    let n = v.len();
    let mut k: usize = 0;
    while k < n && '0' <= v[k] && v[k] <= '9'
        invariant
            v@ == name@,
            n == v@.len(),
            k <= n,
            forall|i: int| 0 <= i < k ==> is_digit(#[trigger] v@[i]),
        decreases n - k,
    {
        k = k + 1;
    }
    proof {
        lemma_leading_digits(name@, k as int);
        assert(v@.subrange(0, k as int) =~= name@.take(k as int));
    }
    if k == 0 {
        return None;
    }
    Some(strip_zeros(&v, 0, k))
}

/// The number of the next clarification among the file names of a plan
/// directory, written with at least two digits.
pub fn next_clarity_prefix(names: &Vec<String>) -> (s: String)
    ensures
        s@ == padded2(next_number(views(names@))),
{
    let ghost vs = views(names@);
    let mut best: Vec<char> = Vec::new();
    let mut found = false;
    let n = names.len();
    let mut i: usize = 0;
    while i < n
        invariant
            n == names@.len(),
            vs == views(names@),
            i <= n,
            canonical(best@),
            found ==> max_prefix(vs.take(i as int)) == Some(digits_value(best@)),
            !found ==> max_prefix(vs.take(i as int)) is None,
        decreases n - i,
    {
        assert(vs.take(i + 1).drop_last() =~= vs.take(i as int));
        assert(vs.take(i + 1).last() == names@[i as int]@);
        match prefix_of(names[i].as_str()) {
            Some(c) => {
                if !found || greater(&c, &best) {
                    best = c;
                    found = true;
                }
            },
            None => {},
        }
        i = i + 1;
    }
    assert(vs.take(n as int) =~= vs);
    if found {
        let next = increment(&best);
        write_padded(&next)
    } else {
        let mut four: Vec<char> = Vec::new();
        four.push('4');
        proof {
            lemma_digit_value_of_char(4);
            assert(four@.drop_last() =~= seq![]);
            assert(digits_value(four@.drop_last()) == 0);
            assert(four@.last() == '4');
            assert(canonical(four@));
        }
        write_padded(&four)
    }
}

/// The file name of the next clarification with the slug `name` among the
/// file names of a plan directory.
pub fn next_clarity_file(names: &Vec<String>, name: &str) -> (r: String)
    ensures
        r@ == clarity_name(next_number(views(names@)), name@),
{
    let mut r = next_clarity_prefix(names);
    r.append("-");
    r.append(name);
    r.append("-clarity.md");
    r
}

proof fn lemma_max_prefix_is_max(names: Seq<Seq<char>>, i: int)
    requires
        0 <= i < names.len(),
        prefix_number(names[i]) is Some,
    ensures
        max_prefix(names) matches Some(m) && prefix_number(names[i])->0 <= m,
    decreases names.len(),
{
    if i < names.len() - 1 {
        assert(names.drop_last()[i] == names[i]);
        lemma_max_prefix_is_max(names.drop_last(), i);
    }
}

/// The next clarification number is greater than the number that starts the
/// name of every file in the plan directory, so it is a number no file there
/// has yet.
pub proof fn lemma_next_number_is_fresh(names: Seq<Seq<char>>, i: int)
    requires
        0 <= i < names.len(),
        prefix_number(names[i]) is Some,
    ensures
        prefix_number(names[i])->0 < next_number(names),
{
    lemma_max_prefix_is_max(names, i);
}

/// The name of the clarification numbered `k` starts with the number `k`.
pub proof fn lemma_clarity_name_number(k: nat, name: Seq<char>)
    ensures
        prefix_number(clarity_name(k, name)) == Some(k),
{
    reveal_strlit("-");
    lemma_value_of_decimal(k);
    let p = padded2(k);
    let f = clarity_name(k, name);
    assert(all_digits(p)) by {
        if k < 10 {
            assert forall|i: int| 0 <= i < p.len() implies is_digit(#[trigger] p[i]) by {
                if i > 0 {
                    assert(p[i] == decimal(k)[i - 1]);
                }
            }
        }
    }
    assert forall|i: int| 0 <= i < p.len() implies is_digit(#[trigger] f[i]) by {
        assert(f[i] == p[i]);
    }
    assert(f[p.len() as int] == '-');
    lemma_leading_digits(f, p.len() as int);
    assert(f.take(p.len() as int) =~= p);
    if k < 10 {
        assert(p =~= crate::decimal::repeat('0', 1) + decimal(k));
        lemma_leading_zeros(1, decimal(k));
    }
}

/// Clarification numbers grow by one from one clarification to the next:
/// once the file of the next clarification is in the plan directory, the
/// following clarification gets the number after it.
pub proof fn lemma_numbers_increase(names: Seq<Seq<char>>, a: Seq<char>)
    ensures
        next_number(names.push(clarity_name(next_number(names), a))) == next_number(names) + 1,
{
    let k = next_number(names);
    let f = clarity_name(k, a);
    lemma_clarity_name_number(k, a);
    let all = names.push(f);
    assert(all.drop_last() =~= names);
    assert(all.last() == f);
}

} // verus!

verus! {

/// The greatest prefix among file names is the prefix of one of them.
pub proof fn lemma_max_prefix_attained(names: Seq<Seq<char>>)
    ensures
        max_prefix(names) matches Some(m) ==> exists|i: int|
            0 <= i < names.len() && #[trigger] prefix_number(names[i]) == Some(m),
        max_prefix(names) is None ==> forall|i: int|
            0 <= i < names.len() ==> #[trigger] prefix_number(names[i]) is None,
    decreases names.len(),
{
    if names.len() > 0 {
        let e = names.drop_last();
        lemma_max_prefix_attained(e);
        assert forall|i: int| 0 <= i < e.len() implies #[trigger] e[i] == names[i] by {}
        let last = names.len() - 1;
        if max_prefix(names) is Some {
            let m = max_prefix(names)->0;
            if prefix_number(names[last]) == Some(m) {
            } else {
                let i = choose|i: int| 0 <= i < e.len() && #[trigger] prefix_number(e[i]) == Some(m);
                assert(prefix_number(names[i]) == Some(m));
            }
        } else {
            assert forall|i: int| 0 <= i < names.len() implies #[trigger] prefix_number(names[i]) is None by {
                if i < last {
                    assert(e[i] == names[i]);
                }
            }
        }
    }
}

} // verus!
