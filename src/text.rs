use vstd::prelude::*;

verus! {

/// `t` occurs in `s` (an empty `t` never does).
pub open spec fn occurs(s: Seq<char>, t: Seq<char>) -> bool {
    &&& t.len() > 0
    &&& exists|i: int| 0 <= i && i + t.len() <= s.len() && #[trigger] s.subrange(i, i + t.len()) == t
}

/// `s` with every occurrence of `from`, scanned left to right without
/// overlap, replaced by `to`; an empty `from` changes nothing.
pub open spec fn replace_all(s: Seq<char>, from: Seq<char>, to: Seq<char>) -> Seq<char>
    decreases s.len(),
{
    if from.len() == 0 || s.len() < from.len() {
        s
    } else if s.subrange(0, from.len() as int) == from {
        to + replace_all(s.subrange(from.len() as int, s.len() as int), from, to)
    } else {
        seq![s[0]] + replace_all(s.subrange(1, s.len() as int), from, to)
    }
}

/// Where the token does not occur, replacing it leaves the text unchanged.
pub proof fn lemma_replace_absent(s: Seq<char>, from: Seq<char>, to: Seq<char>)
    requires
        !occurs(s, from),
    ensures
        replace_all(s, from, to) == s,
    decreases s.len(),
{
    if from.len() > 0 && s.len() >= from.len() {
        assert(s.subrange(0, from.len() as int) != from) by {
            if s.subrange(0, from.len() as int) == from {
                assert(s.subrange(0, 0 + from.len() as int) == from);
            }
        }
        let rest = s.subrange(1, s.len() as int);
        assert(!occurs(rest, from)) by {
            if occurs(rest, from) {
                let i = choose|i: int| 0 <= i && i + from.len() <= rest.len() && #[trigger] rest.subrange(i, i + from.len()) == from;
                assert(s.subrange(i + 1, i + 1 + from.len()) =~= rest.subrange(i, i + from.len()));
            }
        }
        lemma_replace_absent(rest, from, to);
        assert(seq![s[0]] + rest =~= s);
    }
}

/// Whether `t` stands in `s` at position `i`.
fn matches_at(s: &str, i: usize, t: &str) -> (r: bool)
    requires
        i + t@.len() <= s@.len(),
    ensures
        r == (s@.subrange(i as int, i + t@.len()) == t@),
{
    let n = t.unicode_len();
    let _len = s.unicode_len();
    let mut k: usize = 0;
    while k < n
        invariant
            n == t@.len(),
            _len == s@.len(),
            i + n <= s@.len(),
            k <= n,
            forall|j: int| 0 <= j < k ==> s@[i + j] == t@[j],
        decreases n - k,
    {
        if s.get_char(i + k) != t.get_char(k) {
            assert(s@.subrange(i as int, i + t@.len())[k as int] != t@[k as int]);
            return false;
        }
        k = k + 1;
    }
    assert(s@.subrange(i as int, i + t@.len()) =~= t@);
    true
}

/// `s` with every occurrence of `from` replaced by `to`, and whether there
/// was any.
pub fn replace_token(s: &str, from: &str, to: &str) -> (r: (String, bool))
    ensures
        r.0@ == replace_all(s@, from@, to@),
        r.1 == occurs(s@, from@),
{
    let n = s.unicode_len();
    let m = from.unicode_len();
    let mut out = String::new();
    if m == 0 || m > n {
        out.append(s);
        assert(out@ =~= s@);
        return (out, false);
    }
    let mut found = false;
    let mut i: usize = 0;
    assert(s@.subrange(0, n as int) =~= s@);
    assert(out@ + s@ =~= s@);
    while i <= n - m
        invariant
            n == s@.len(),
            m == from@.len(),
            m > 0,
            m <= n,
            i <= n,
            out@ + replace_all(s@.subrange(i as int, n as int), from@, to@) == replace_all(s@, from@, to@),
            !found ==> forall|j: int| 0 <= j < i && j + m <= n ==> #[trigger] s@.subrange(j, j + m) != from@,
            found ==> occurs(s@, from@),
        decreases n - i,
    {
        let ghost rest = s@.subrange(i as int, n as int);
        if matches_at(s, i, from) {
            proof {
                assert(rest.subrange(0, m as int) =~= s@.subrange(i as int, i + m));
                assert(rest.subrange(m as int, rest.len() as int) =~= s@.subrange(i + m, n as int));
                assert(s@.subrange(i as int, i + from@.len()) == from@);
            }
            out.append(to);
            found = true;
            i = i + m;
            proof {
                assert(out@ + replace_all(s@.subrange(i as int, n as int), from@, to@) =~= replace_all(s@, from@, to@));
            }
        } else {
            let c = s.substring_char(i, i + 1);
            proof {
                assert(rest.subrange(0, m as int) =~= s@.subrange(i as int, i + m));
                assert(rest.subrange(1, rest.len() as int) =~= s@.subrange(i + 1, n as int));
                assert(c@ =~= seq![rest[0]]);
            }
            out.append(c);
            i = i + 1;
            proof {
                assert(out@ + replace_all(s@.subrange(i as int, n as int), from@, to@) =~= replace_all(s@, from@, to@));
            }
        }
    }
    let tail = s.substring_char(i, n);
    out.append(tail);
    proof {
        assert(replace_all(s@.subrange(i as int, n as int), from@, to@) == s@.subrange(i as int, n as int));
        if !found {
            assert(!occurs(s@, from@)) by {
                if occurs(s@, from@) {
                    let j = choose|j: int| 0 <= j && j + from@.len() <= s@.len() && #[trigger] s@.subrange(j, j + from@.len()) == from@;
                    assert(s@.subrange(j, j + m) != from@);
                }
            }
        }
    }
    (out, found)
}

} // verus!
