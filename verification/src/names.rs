//! Names of topic types, changes and clarifications, and topic branches.
use vstd::prelude::*;

use crate::text::{chars_of, is_first};

verus! {

/// A character allowed in a name: a lowercase ASCII letter, a digit, `-`, `_` or `.`.
pub open spec fn name_char(c: char) -> bool {
    ('a' <= c && c <= 'z') || ('0' <= c && c <= '9') || c == '-' || c == '_' || c == '.'
}

/// A name is accepted when it is not empty, is neither `.` nor `..`, does not
/// start with `-`, and holds only characters of `name_char`.
pub open spec fn valid_name(s: Seq<char>) -> bool {
    &&& s.len() > 0
    &&& s != seq!['.']
    &&& s != seq!['.', '.']
    &&& s[0] != '-'
    &&& forall|i: int| 0 <= i < s.len() ==> name_char(#[trigger] s[i])
}

/// The message with which a name is refused.
pub open spec fn invalid_name_message(label: Seq<char>, value: Seq<char>) -> Seq<char> {
    "invalid "@ + label + " `"@ + value + "`; use lowercase letters, numbers, `-`, `_`, or `.`"@
}

fn is_name_char(c: char) -> (b: bool)
    ensures
        b == name_char(c),
{
    ('a' <= c && c <= 'z') || ('0' <= c && c <= '9') || c == '-' || c == '_' || c == '.'
}

/// Checks that `value` is a safe name; `label` names what is checked in the message.
pub fn validate_name(value: &str, label: &str) -> (r: Result<(), String>)
    ensures
        r is Ok <==> valid_name(value@),
        r matches Err(m) ==> m@ == invalid_name_message(label@, value@),
{
    let v = chars_of(value);
    let n = v.len();
    let mut all = true;
    let mut i: usize = 0;
    while i < n
        invariant
            v@ == value@,
            n == v@.len(),
            i <= n,
            all <==> forall|j: int| 0 <= j < i ==> name_char(#[trigger] v@[j]),
        decreases n - i,
    {
        if !is_name_char(v[i]) {
            all = false;
        }
        i = i + 1;
    }
    let ok = n > 0 && v[0] != '-' && !(n == 1 && v[0] == '.') && !(n == 2 && v[0] == '.'
        && v[1] == '.') && all;
    proof {
        if n == 1 && v@[0] == '.' {
            assert(value@ =~= seq!['.']);
        }
        if n == 2 && v@[0] == '.' && v@[1] == '.' {
            assert(value@ =~= seq!['.', '.']);
        }
        if value@ == seq!['.'] {
            assert(value@[0] == '.');
        }
        if value@ == seq!['.', '.'] {
            assert(value@[0] == '.' && value@[1] == '.');
        }
    }
    if ok {
        Ok(())
    } else {
        let mut m = String::from_str("invalid ");
        m.append(label);
        m.append(" `");
        m.append(value);
        m.append("`; use lowercase letters, numbers, `-`, `_`, or `.`");
        Err(m)
    }
}

} // verus!

verus! {

/// `s` cut at its first `c`: the part before and the part after, or `None`
/// when `s` holds no `c`.
pub open spec fn split_once(s: Seq<char>, c: char) -> Option<(Seq<char>, Seq<char>)> {
    if exists|k: int| is_first(s, c, k) {
        let k = choose|k: int| is_first(s, c, k);
        Some((s.take(k), s.skip(k + 1)))
    } else {
        None
    }
}

/// The message with which a branch without `/` is refused.
pub open spec fn invalid_branch_message(branch: Seq<char>) -> Seq<char> {
    "invalid branch `"@ + branch + "`; use `<type>/<name>`"@
}

/// What reading `<type>/<name>` gives: both parts, or the message of the first
/// check that fails.
pub open spec fn topic_branch(branch: Seq<char>) -> Result<(Seq<char>, Seq<char>), Seq<char>> {
    match split_once(branch, '/') {
        None => Err(invalid_branch_message(branch)),
        Some((t, n)) => if !valid_name(t) {
            Err(invalid_name_message("topic type"@, t))
        } else if !valid_name(n) {
            Err(invalid_name_message("change name"@, n))
        } else {
            Ok((t, n))
        },
    }
}

/// Splits a topic branch `<type>/<name>` at its first `/` and checks both parts.
pub fn parse_topic_branch(branch: &str) -> (r: Result<(String, String), String>)
    ensures
        match r {
            Ok((t, n)) => topic_branch(branch@) == Ok::<(Seq<char>, Seq<char>), Seq<char>>((t@, n@)),
            Err(m) => topic_branch(branch@) == Err::<(Seq<char>, Seq<char>), Seq<char>>(m@),
        },
{
    let v = chars_of(branch);
    let n = v.len();
    let mut k: usize = 0;
    while k < n && v[k] != '/'
        invariant
            v@ == branch@,
            n == v@.len(),
            k <= n,
            forall|j: int| 0 <= j < k ==> v@[j] != '/',
        decreases n - k,
    {
        k = k + 1;
    }
    if k == n {
        proof {
            assert(!exists|j: int| is_first(branch@, '/', j));
        }
        let mut m = String::from_str("invalid branch `");
        m.append(branch);
        m.append("`; use `<type>/<name>`");
        return Err(m);
    }
    proof {
        assert(is_first(branch@, '/', k as int));
        let c = choose|j: int| is_first(branch@, '/', j);
        assert(c == k as int);
    }
    let topic = branch.substring_char(0, k);
    let name = branch.substring_char(k + 1, n);
    proof {
        assert(topic@ =~= branch@.take(k as int));
        assert(name@ =~= branch@.skip(k + 1));
    }
    match validate_name(topic, "topic type") {
        Err(m) => { return Err(m); },
        Ok(()) => {},
    }
    match validate_name(name, "change name") {
        Err(m) => { return Err(m); },
        Ok(()) => {},
    }
    Ok((topic.to_owned(), name.to_owned()))
}

/// A name that is accepted holds no `/` and is neither `.` nor `..`: joined
/// to a directory as one path component, it names an entry inside that
/// directory and cannot climb out of it.
pub proof fn lemma_valid_name_stays_in_directory(s: Seq<char>)
    requires
        valid_name(s),
    ensures
        !s.contains('/'),
        s != seq!['.'],
        s != seq!['.', '.'],
        s.len() > 0,
{
    if s.contains('/') {
        let i = choose|i: int| 0 <= i < s.len() && s[i] == '/';
        assert(name_char(s[i]));
    }
}

/// Reading a topic branch undoes writing one: when `<type>/<name>` is read
/// into two parts, the branch is those parts joined by `/`.
pub proof fn lemma_topic_branch_rejoins(branch: Seq<char>)
    requires
        topic_branch(branch) is Ok,
    ensures
        branch == topic_branch(branch)->Ok_0.0 + seq!['/'] + topic_branch(branch)->Ok_0.1,
{
    let k = choose|k: int| is_first(branch, '/', k);
    assert(branch =~= branch.take(k) + seq!['/'] + branch.skip(k + 1));
}

/// Writing a topic branch from two accepted names and reading it back gives
/// the same two names.
pub proof fn lemma_topic_branch_roundtrip(t: Seq<char>, n: Seq<char>)
    requires
        valid_name(t),
        valid_name(n),
    ensures
        topic_branch(t + seq!['/'] + n) == Ok::<(Seq<char>, Seq<char>), Seq<char>>((t, n)),
{
    let s = t + seq!['/'] + n;
    let k = t.len() as int;
    assert forall|j: int| 0 <= j < k implies s[j] != '/' by {
        assert(s[j] == t[j]);
        assert(name_char(t[j]));
    }
    assert(is_first(s, '/', k));
    let c = choose|j: int| is_first(s, '/', j);
    if c < k {
        assert(s[c] == t[c]);
        assert(name_char(t[c]));
    }
    assert(c == k);
    assert(s.take(k) =~= t);
    assert(s.skip(k + 1) =~= n);
}

} // verus!
