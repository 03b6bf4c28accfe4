use vstd::prelude::*;
use vstd::string::StrSliceExecFns;

verus! {

/// The whitespace characters stripped by `trim`: the ASCII blank, tab,
/// newline and carriage return produced by external tool output.
pub open spec fn is_space(c: char) -> bool {
    c == ' ' || c == '\t' || c == '\n' || c == '\r'
}

/// Executable test for `is_space`.
fn space(c: char) -> (r: bool)
    ensures
        r == is_space(c),
{
    c == ' ' || c == '\t' || c == '\n' || c == '\r'
}

/// The sequence with leading whitespace removed.
pub open spec fn trim_front_spec(s: Seq<char>) -> Seq<char>
    decreases s.len(),
{
    if s.len() > 0 && is_space(s[0]) {
        trim_front_spec(s.drop_first())
    } else {
        s
    }
}

/// The sequence with trailing whitespace removed.
pub open spec fn trim_back_spec(s: Seq<char>) -> Seq<char>
    decreases s.len(),
{
    if s.len() > 0 && is_space(s[s.len() - 1]) {
        trim_back_spec(s.drop_last())
    } else {
        s
    }
}

/// The sequence with both leading and trailing whitespace removed.
pub open spec fn trim_spec(s: Seq<char>) -> Seq<char> {
    trim_back_spec(trim_front_spec(s))
}

proof fn lemma_trim_front_at(s: Seq<char>, k: int)
    requires
        0 <= k <= s.len(),
        forall|m: int| 0 <= m < k ==> is_space(s[m]),
        k == s.len() || !is_space(s[k]),
    ensures
        trim_front_spec(s) == s.skip(k),
    decreases k,
{
    if k == 0 {
        assert(s.skip(0) =~= s);
    } else {
        lemma_trim_front_at(s.drop_first(), k - 1);
        assert(s.drop_first().skip(k - 1) =~= s.skip(k));
    }
}

proof fn lemma_trim_back_at(s: Seq<char>, m: int)
    requires
        0 <= m <= s.len(),
        forall|k: int| m <= k < s.len() ==> is_space(s[k]),
        m == 0 || !is_space(s[m - 1]),
    ensures
        trim_back_spec(s) == s.take(m),
    decreases s.len() - m,
{
    if m == s.len() {
        assert(s.take(m) =~= s);
    } else {
        lemma_trim_back_at(s.drop_last(), m);
        assert(s.drop_last().take(m) =~= s.take(m));
    }
}

/// Removes leading and trailing whitespace, as external tool output is
/// trimmed before further parsing.
pub fn trim(s: &str) -> (r: String)
    ensures
        r@ == trim_spec(s@),
{
    let n: usize = s.unicode_len();
    let mut i: usize = 0;
    while i < n && space(s.get_char(i))
        invariant
            n == s@.len(),
            i <= n,
            forall|m: int| 0 <= m < i ==> is_space(s@[m]),
        decreases n - i,
    {
        i = i + 1;
    }
    let mut j: usize = n;
    while j > i && space(s.get_char(j - 1))
        invariant
            n == s@.len(),
            i <= j <= n,
            forall|m: int| j <= m < n ==> is_space(s@[m]),
        decreases j,
    {
        j = j - 1;
    }
    let t = s.substring_char(i, j);
    proof {
        lemma_trim_front_at(s@, i as int);
        let rest = s@.skip(i as int);
        assert(forall|k: int| 0 <= k < rest.len() ==> rest[k] == s@[k + i]);
        lemma_trim_back_at(rest, (j - i) as int);
        assert(rest.take((j - i) as int) =~= s@.subrange(i as int, j as int));
    }
    t.to_owned()
}

/// Finds the first occurrence of `c` at or after `start`.
pub fn find_from(s: &str, start: usize, c: char) -> (r: Option<usize>)
    requires
        start <= s@.len(),
    ensures
        match r {
            Some(idx) => start <= idx && idx < s@.len() && s@[idx as int] == c && (forall|m: int|
                start <= m < idx ==> s@[m] != c),
            None => forall|m: int| start <= m < s@.len() ==> s@[m] != c,
        },
{
    let n: usize = s.unicode_len();
    let mut i: usize = start;
    while i < n
        invariant
            n == s@.len(),
            start <= i <= n,
            forall|m: int| start <= m < i ==> s@[m] != c,
        decreases n - i,
    {
        if s.get_char(i) == c {
            return Some(i);
        }
        i = i + 1;
    }
    None
}

/// Finds the last occurrence of `c` in `s`.
pub fn find_last(s: &str, c: char) -> (r: Option<usize>)
    ensures
        match r {
            Some(idx) => idx < s@.len() && s@[idx as int] == c && (forall|m: int|
                idx < m < s@.len() ==> s@[m] != c),
            None => forall|m: int| 0 <= m < s@.len() ==> s@[m] != c,
        },
{
    let n: usize = s.unicode_len();
    let mut j: usize = n;
    while j > 0
        invariant
            n == s@.len(),
            j <= n,
            forall|m: int| j <= m < n ==> s@[m] != c,
        decreases j,
    {
        let jj = j - 1;
        if s.get_char(jj) == c {
            return Some(jj);
        }
        j = jj;
    }
    None
}

/// Character-wise string equality, reflected into the views.
pub fn str_eq(a: &str, b: &str) -> (r: bool)
    ensures
        r == (a@ == b@),
{
    let n: usize = a.unicode_len();
    let m: usize = b.unicode_len();
    if n != m {
        return false;
    }
    let mut i: usize = 0;
    while i < n
        invariant
            n == a@.len(),
            n == b@.len(),
            i <= n,
            forall|k: int| 0 <= k < i ==> a@[k] == b@[k],
        decreases n - i,
    {
        if a.get_char(i) != b.get_char(i) {
            return false;
        }
        i = i + 1;
    }
    proof {
        assert(a@ =~= b@);
    }
    true
}

/// The views of a sequence of strings.
pub open spec fn views(q: Seq<String>) -> Seq<Seq<char>> {
    q.map_values(|x: String| x@)
}

/// A trailing carriage return removed, if present.
pub open spec fn drop_tail_cr(s: Seq<char>) -> Seq<char> {
    if s.len() > 0 && s[s.len() - 1] == '\r' {
        s.drop_last()
    } else {
        s
    }
}

/// The index of the first newline in `s`, or `s.len()` if there is none.
pub open spec fn first_nl(s: Seq<char>) -> nat
    decreases s.len(),
{
    if s.len() == 0 {
        0
    } else if s[0] == '\n' {
        0
    } else {
        (1 + first_nl(s.drop_first())) as nat
    }
}

proof fn lemma_first_nl_is(s: Seq<char>, j: int)
    requires
        0 <= j <= s.len(),
        j < s.len() ==> s[j] == '\n',
        forall|m: int| 0 <= m < j ==> s[m] != '\n',
        j == s.len() ==> forall|m: int| 0 <= m < s.len() ==> s[m] != '\n',
    ensures
        first_nl(s) == j,
    decreases s.len(),
{
    if s.len() == 0 {
    } else if s[0] == '\n' {
        assert(j == 0);
    } else {
        assert(j >= 1);
        lemma_first_nl_is(s.drop_first(), j - 1);
    }
}

/// The lines of `s`: split at each newline, a carriage return directly
/// before a newline removed, and no final empty line when `s` ends with a
/// newline.
pub open spec fn lines_spec(s: Seq<char>) -> Seq<Seq<char>>
    decreases s.len(),
{
    if s.len() == 0 {
        Seq::empty()
    } else {
        let k = first_nl(s);
        if k < s.len() {
            seq![drop_tail_cr(s.take(k as int))] + lines_spec(s.skip(k as int + 1))
        } else {
            seq![s]
        }
    }
}

proof fn lemma_lines_step(s: Seq<char>, start: int, k: int)
    requires
        0 <= start <= k < s.len(),
        s[k] == '\n',
        forall|m: int| start <= m < k ==> s[m] != '\n',
    ensures
        lines_spec(s.skip(start)) == seq![drop_tail_cr(s.subrange(start, k))] + lines_spec(
            s.skip(k + 1),
        ),
{
    let t = s.skip(start);
    assert(forall|m: int| 0 <= m < t.len() ==> t[m] == s[m + start]);
    lemma_first_nl_is(t, k - start);
    assert(t.take(k - start) =~= s.subrange(start, k));
    assert(t.skip(k - start + 1) =~= s.skip(k + 1));
}

proof fn lemma_lines_none(s: Seq<char>, start: int)
    requires
        0 <= start < s.len(),
        forall|m: int| start <= m < s.len() ==> s[m] != '\n',
    ensures
        lines_spec(s.skip(start)) == seq![s.skip(start)],
{
    let t = s.skip(start);
    assert(forall|m: int| 0 <= m < t.len() ==> t[m] == s[m + start]);
    lemma_first_nl_is(t, t.len() as int);
}

/// Splits external tool output into its lines.
pub fn split_lines(s: &str) -> (r: Vec<String>)
    ensures
        views(r@) == lines_spec(s@),
{
    let n: usize = s.unicode_len();
    let mut res: Vec<String> = Vec::new();
    let mut start: usize = 0;
    proof {
        assert(s@.skip(0) =~= s@);
        assert(views(res@) =~= Seq::<Seq<char>>::empty());
    }
    while start < n
        invariant
            n == s@.len(),
            start <= n,
            views(res@) + lines_spec(s@.skip(start as int)) == lines_spec(s@),
        decreases n - start,
    {
        let nl = find_from(s, start, '\n');
        match nl {
            Some(k) => {
                let end: usize = if k > start && s.get_char(k - 1) == '\r' {
                    k - 1
                } else {
                    k
                };
                let line = s.substring_char(start, end);
                res.push(line.to_owned());
                proof {
                    lemma_lines_step(s@, start as int, k as int);
                    assert(s@.subrange(start as int, end as int) =~= drop_tail_cr(
                        s@.subrange(start as int, k as int),
                    ));
                    assert(views(res@) =~= views(res@.drop_last()) + seq![line@]);
                    assert(views(res@) + lines_spec(s@.skip(k as int + 1)) =~= lines_spec(s@));
                }
                start = k + 1;
            },
            None => {
                let line = s.substring_char(start, n);
                res.push(line.to_owned());
                proof {
                    lemma_lines_none(s@, start as int);
                    assert(views(res@) =~= views(res@.drop_last()) + seq![line@]);
                    assert(s@.skip(n as int) =~= Seq::<char>::empty());
                    assert(views(res@) + lines_spec(s@.skip(n as int)) =~= lines_spec(s@));
                }
                start = n;
            },
        }
    }
    proof {
        assert(s@.skip(n as int) =~= Seq::<char>::empty());
        assert(views(res@) + lines_spec(s@.skip(n as int)) =~= views(res@));
    }
    res
}

} // verus!
