use vstd::prelude::*;
use vstd::string::StringExecFns;

verus! {

/// Relies on String::push: appends exactly one character to the string.
#[verifier::external_body]
pub fn push_char(s: &mut String, c: char)
    ensures
        final(s)@ == old(s)@.push(c),
{
    s.push(c);
}

/// Index of the first occurrence of `c` in `s`, or `s.len()` when absent.
pub open spec fn first_index_of(s: Seq<char>, c: char) -> int
    decreases s.len(),
{
    if s.len() == 0 {
        0
    } else if s[0] == c {
        0
    } else {
        1 + first_index_of(s.drop_first(), c)
    }
}

pub proof fn lemma_first_index_of(s: Seq<char>, c: char)
    ensures
        0 <= first_index_of(s, c) <= s.len(),
        forall|k: int| 0 <= k < first_index_of(s, c) ==> s[k] != c,
        first_index_of(s, c) < s.len() ==> s[first_index_of(s, c)] == c,
    decreases s.len(),
{
    if s.len() != 0 && s[0] != c {
        lemma_first_index_of(s.drop_first(), c);
        assert forall|k: int| 0 <= k < first_index_of(s, c) implies s[k] != c by {
            if k > 0 {
                assert(s.drop_first()[k - 1] == s[k]);
            }
        }
        if first_index_of(s, c) < s.len() {
            assert(s.drop_first()[first_index_of(s.drop_first(), c)] == s[first_index_of(s, c)]);
        }
    }
}

/// A scan that saw no separator in `s[0..j]` and one at `s[j]` has found the
/// first occurrence.
pub proof fn lemma_first_index_is(s: Seq<char>, c: char, j: int)
    requires
        0 <= j <= s.len(),
        forall|k: int| 0 <= k < j ==> s[k] != c,
        j < s.len() ==> s[j] == c,
    ensures
        first_index_of(s, c) == j,
    decreases s.len(),
{
    if s.len() != 0 && s[0] != c {
        assert forall|k: int| 0 <= k < j - 1 implies s.drop_first()[k] != c by {
            assert(s.drop_first()[k] == s[k + 1]);
        }
        if j < s.len() {
            assert(s.drop_first()[j - 1] == s[j]);
        }
        lemma_first_index_is(s.drop_first(), c, j - 1);
    }
}

/// The segments of `s` between occurrences of the separator `c`; splitting
/// never yields an empty list ("a,b" gives ["a", "b"], "" gives [""]).
pub open spec fn spec_split(s: Seq<char>, c: char) -> Seq<Seq<char>>
    decreases s.len(),
{
    if s.len() == 0 {
        seq![Seq::<char>::empty()]
    } else if s[0] == c {
        seq![Seq::<char>::empty()] + spec_split(s.drop_first(), c)
    } else {
        let rest = spec_split(s.drop_first(), c);
        seq![seq![s[0]] + rest[0]] + rest.drop_first()
    }
}

pub proof fn lemma_spec_split_len(s: Seq<char>, c: char)
    ensures
        spec_split(s, c).len() >= 1,
    decreases s.len(),
{
    if s.len() != 0 {
        lemma_spec_split_len(s.drop_first(), c);
    }
}

/// Prepending `p` to the first segment of a split.
pub open spec fn prepend_first(p: Seq<char>, ss: Seq<Seq<char>>) -> Seq<Seq<char>> {
    seq![p + ss[0]] + ss.drop_first()
}

proof fn lemma_prepend_first_twice(p: Seq<char>, q: Seq<char>, ss: Seq<Seq<char>>)
    requires
        ss.len() >= 1,
    ensures
        prepend_first(p, prepend_first(q, ss)) =~~= prepend_first(p + q, ss),
{
}

proof fn lemma_prepend_first_empty(ss: Seq<Seq<char>>)
    requires
        ss.len() >= 1,
    ensures
        prepend_first(Seq::<char>::empty(), ss) =~~= ss,
{
}

/// Splits `s` at every occurrence of `c`, as the view-level `spec_split` does.
pub fn split_on_char(s: &str, c: char) -> (r: Vec<String>)
    ensures
        r.deep_view() == spec_split(s@, c),
{
    let n: usize = s.unicode_len();
    let mut done: Vec<String> = Vec::new();
    let mut cur: String = String::new();
    let mut i: usize = 0;
    proof {
        assert(s@.skip(0) == s@);
        lemma_spec_split_len(s@, c);
    }
    while i < n
        invariant
            n == s@.len(),
            0 <= i <= n,
            spec_split(s@, c) =~~= done.deep_view() + prepend_first(cur@, spec_split(s@.skip(i as int), c)),
        decreases n - i,
    {
        let ch = s.get_char(i);
        proof {
            assert(s@.skip(i as int)[0] == s@[i as int]);
            assert(s@.skip(i as int).drop_first() == s@.skip(i + 1));
            lemma_spec_split_len(s@.skip(i + 1), c);
        }
        if ch == c {
            proof {
                lemma_prepend_first_empty(spec_split(s@.skip(i + 1), c));
            }
            done.push(cur);
            cur = String::new();
        } else {
            proof {
                let rest = spec_split(s@.skip(i + 1), c);
                assert(spec_split(s@.skip(i as int), c) == prepend_first(seq![ch], rest));
                lemma_prepend_first_twice(cur@, seq![ch], rest);
                assert(cur@ + seq![ch] == cur@.push(ch));
            }
            push_char(&mut cur, ch);
        }
        i = i + 1;
    }
    proof {
        assert(s@.skip(n as int) =~= Seq::<char>::empty());
        assert(spec_split(s@.skip(n as int), c) == seq![Seq::<char>::empty()]);
        assert(prepend_first(cur@, seq![Seq::<char>::empty()]) =~~= seq![cur@]);
    }
    done.push(cur);
    proof {
        assert(done.deep_view() =~~= spec_split(s@, c));
    }
    done
}

/// Whether the character `c` occurs in `s`.
pub fn contains_char(s: &str, c: char) -> (r: bool)
    ensures
        r == s@.contains(c),
{
    let n: usize = s.unicode_len();
    let mut i: usize = 0;
    while i < n
        invariant
            n == s@.len(),
            0 <= i <= n,
            forall|k: int| 0 <= k < i ==> s@[k] != c,
        decreases n - i,
    {
        if s.get_char(i) == c {
            return true;
        }
        i = i + 1;
    }
    false
}

/// Whether the two strings hold the same characters.
pub fn str_eq(a: &str, b: &str) -> (r: bool)
    ensures
        r == (a@ == b@),
{
    let na: usize = a.unicode_len();
    let nb: usize = b.unicode_len();
    if na != nb {
        return false;
    }
    let mut i: usize = 0;
    while i < na
        invariant
            na == a@.len(),
            na == b@.len(),
            0 <= i <= na,
            forall|k: int| 0 <= k < i ==> a@[k] == b@[k],
        decreases na - i,
    {
        if a.get_char(i) != b.get_char(i) {
            return false;
        }
        i = i + 1;
    }
    proof {
        assert(a@ =~= b@);
    }
    true
}

/// Whether `sub` occurs contiguously inside `s`.
pub open spec fn has_substring(s: Seq<char>, sub: Seq<char>) -> bool {
    exists|i: int|
        0 <= i && i + sub.len() <= s.len() && #[trigger] s.subrange(i, i + sub.len() as int) == sub
}

/// Substring search, by direct comparison at every offset.
pub fn contains_sub(s: &str, sub: &str) -> (r: bool)
    ensures
        r == has_substring(s@, sub@),
{
    let n: usize = s.unicode_len();
    let m: usize = sub.unicode_len();
    if m == 0 {
        proof {
            assert(s@.subrange(0, 0 + sub@.len() as int) =~= sub@);
            assert(has_substring(s@, sub@));
        }
        return true;
    }
    if m > n {
        proof {
            assert(!has_substring(s@, sub@));
        }
        return false;
    }
    let mut i: usize = 0;
    while i <= n - m
        invariant
            n == s@.len(),
            m == sub@.len(),
            1 <= m <= n,
            0 <= i <= n - m + 1,
            forall|j: int| 0 <= j < i ==> #[trigger] s@.subrange(j, j + sub@.len() as int) != sub@,
        decreases n - m + 1 - i,
    {
        let mut t: usize = 0;
        let mut matched = true;
        while t < m && matched
            invariant
                n == s@.len(),
                m == sub@.len(),
                0 <= i <= n - m,
                0 <= t <= m,
                matched ==> forall|k: int| 0 <= k < t ==> s@[i + k] == sub@[k],
                !matched ==> s@.subrange(i as int, i + sub@.len() as int) != sub@,
            decreases m - t + (if matched { 1int } else { 0int }),
        {
            if s.get_char(i + t) != sub.get_char(t) {
                proof {
                    assert(s@.subrange(i as int, i + sub@.len() as int)[t as int] == s@[i + t]);
                }
                matched = false;
            } else {
                t = t + 1;
            }
        }
        if matched {
            proof {
                assert forall|k: int| 0 <= k < sub@.len() implies s@.subrange(
                    i as int,
                    i + sub@.len() as int,
                )[k] == sub@[k] by {
                    assert(s@[i + k] == sub@[k]);
                }
                assert(s@.subrange(i as int, i + sub@.len() as int) =~= sub@);
            }
            return true;
        }
        i = i + 1;
    }
    proof {
        assert forall|j: int| 0 <= j && j + sub@.len() <= s@.len() implies #[trigger] s@.subrange(
            j,
            j + sub@.len() as int,
        ) != sub@ by {
            assert(j < i);
        }
    }
    false
}

/// The name with one trailing ".exe" removed, when it carries one.
pub open spec fn spec_strip_exe(s: Seq<char>) -> Seq<char> {
    if s.len() >= 4 && s.subrange(s.len() - 4, s.len() as int) == ".exe"@ {
        s.take(s.len() - 4)
    } else {
        s
    }
}

/// Strips one trailing ".exe" from a binary name, as archives for windows
/// targets carry it.
pub fn strip_exe(name: &str) -> (r: String)
    ensures
        r@ == spec_strip_exe(name@),
{
    let n: usize = name.unicode_len();
    proof {
        reveal_strlit(".exe");
    }
    if n >= 4 && name.get_char(n - 4) == '.' && name.get_char(n - 3) == 'e' && name.get_char(n - 2)
        == 'x' && name.get_char(n - 1) == 'e' {
        proof {
            assert(name@.subrange(n - 4, n as int) =~= ".exe"@);
        }
        let r = name.substring_char(0, n - 4).to_owned();
        proof {
            assert(r@ == name@.take(n - 4));
        }
        r
    } else {
        proof {
            if name@.len() >= 4 && name@.subrange(n - 4, n as int) == ".exe"@ {
                assert(name@[n - 4] == ".exe"@[0]);
                assert(name@[n - 3] == ".exe"@[1]);
                assert(name@[n - 2] == ".exe"@[2]);
                assert(name@[n - 1] == ".exe"@[3]);
                assert(false);
            }
        }
        name.to_owned()
    }
}

/// Whether one of the strings holds exactly these characters.
pub fn vec_contains_str(v: &Vec<String>, t: &str) -> (r: bool)
    ensures
        r == v.deep_view().contains(t@),
{
    let n = v.len();
    let mut i: usize = 0;
    while i < n
        invariant
            n == v@.len(),
            0 <= i <= n,
            forall|k: int| 0 <= k < i ==> v.deep_view()[k] != t@,
        decreases n - i,
    {
        if str_eq(v[i].as_str(), t) {
            proof {
                assert(v.deep_view()[i as int] == t@);
            }
            return true;
        }
        i = i + 1;
    }
    false
}

/// Clones a list of strings, keeping order and contents.
pub fn clone_strings(v: &Vec<String>) -> (r: Vec<String>)
    ensures
        r.deep_view() == v.deep_view(),
{
    let n = v.len();
    let mut out: Vec<String> = Vec::new();
    let mut i: usize = 0;
    while i < n
        invariant
            n == v@.len(),
            0 <= i <= n,
            out.deep_view() =~~= v.deep_view().take(i as int),
        decreases n - i,
    {
        let ghost pre = out.deep_view();
        out.push(v[i].clone());
        proof {
            assert(out.deep_view() =~= pre.push(v@[i as int]@));
            assert(out.deep_view() =~~= v.deep_view().take(i + 1));
        }
        i = i + 1;
    }
    proof {
        assert(out.deep_view() =~~= v.deep_view());
    }
    out
}

/// Joins a package id and a version into the `id@version` form.
pub fn concat_at(a: &str, b: &str) -> (r: String)
    ensures
        r@ == a@ + "@"@ + b@,
{
    a.to_owned().concat("@").concat(b)
}

/// Splits `s` at the first occurrence of `c`; `None` when `c` is absent.
pub fn split_once_char(s: &str, c: char) -> (r: Option<(String, String)>)
    ensures
        match r {
            Some(parts) => {
                let i = first_index_of(s@, c);
                &&& i < s@.len()
                &&& parts.0@ == s@.take(i)
                &&& parts.1@ == s@.skip(i + 1)
                &&& !parts.0@.contains(c)
                &&& s@ == parts.0@ + seq![c] + parts.1@
            },
            None => !s@.contains(c),
        },
{
    let n: usize = s.unicode_len();
    let mut i: usize = 0;
    while i < n
        invariant
            n == s@.len(),
            0 <= i <= n,
            forall|k: int| 0 <= k < i ==> s@[k] != c,
        decreases n - i,
    {
        if s.get_char(i) == c {
            proof {
                lemma_first_index_is(s@, c, i as int);
                lemma_first_index_of(s@, c);
            }
            let a = s.substring_char(0, i).to_owned();
            let b = s.substring_char(i + 1, n).to_owned();
            proof {
                assert forall|k: int| 0 <= k < a@.len() implies a@[k] != c by {
                    assert(a@[k] == s@[k]);
                }
                assert(s@ =~= a@ + seq![c] + b@);
            }
            return Some((a, b));
        }
        i = i + 1;
    }
    None
}

} // verus!
