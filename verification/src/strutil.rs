//! Verified text primitives: splitting, joining, searching and replacing
//! over `Seq<char>` views, with executable counterparts.

use vstd::prelude::*;

verus! {

/// Relies on `String::push` from std: appends the given character to the end
/// of the string.
pub assume_specification[ String::push ](s: &mut String, c: char)
    ensures
        final(s)@ == old(s)@.push(c),
;

/// The views of a sequence of owned strings.
pub open spec fn views(v: Seq<String>) -> Seq<Seq<char>> {
    v.map_values(|s: String| s@)
}

/// The view of an optional owned string.
pub open spec fn opt_str_view(k: Option<String>) -> Option<Seq<char>> {
    match k {
        Some(s) => Some(s@),
        None => None,
    }
}

/// Splitting helper: the pieces of `s` cut at every `sep`, where `cur` holds
/// the piece read so far.
pub open spec fn split_rec(s: Seq<char>, sep: char, cur: Seq<char>) -> Seq<Seq<char>>
    decreases s.len(),
{
    if s.len() == 0 {
        seq![cur]
    } else if s[0] == sep {
        seq![cur] + split_rec(s.skip(1), sep, Seq::empty())
    } else {
        split_rec(s.skip(1), sep, cur.push(s[0]))
    }
}

/// The pieces of `s` cut at every occurrence of `sep`; empty pieces are kept,
/// so the result always holds one piece more than `s` holds separators.
pub open spec fn split_on(s: Seq<char>, sep: char) -> Seq<Seq<char>> {
    split_rec(s, sep, Seq::empty())
}

proof fn lemma_split_rec_step(s: Seq<char>, sep: char, cur: Seq<char>, i: int)
    requires
        0 <= i < s.len(),
    ensures
        split_rec(s.skip(i), sep, cur) == if s[i] == sep {
            seq![cur] + split_rec(s.skip(i + 1), sep, Seq::<char>::empty())
        } else {
            split_rec(s.skip(i + 1), sep, cur.push(s[i]))
        },
{
    assert(s.skip(i).len() > 0);
    assert(s.skip(i)[0] == s[i]);
    assert(s.skip(i).skip(1) =~= s.skip(i + 1));
}

/// Cut `s` at every occurrence of `sep`, keeping empty pieces.
pub fn split_str(s: &str, sep: char) -> (r: Vec<String>)
    ensures
        views(r@) == split_on(s@, sep),
{
    let n = s.unicode_len();
    let mut out: Vec<String> = Vec::new();
    let mut cur = String::new();
    let mut i: usize = 0;
    proof {
        assert(s@.skip(0) =~= s@);
        assert(views(out@) =~= Seq::<Seq<char>>::empty());
        assert(views(out@) + split_rec(s@, sep, cur@) =~= split_rec(s@, sep, cur@));
    }
    while i < n
        invariant
            0 <= i <= n,
            n == s@.len(),
            split_on(s@, sep) == views(out@) + split_rec(s@.skip(i as int), sep, cur@),
        decreases n - i,
    {
        let c = s.get_char(i);
        proof {
            lemma_split_rec_step(s@, sep, cur@, i as int);
        }
        if c == sep {
            let ghost prev_out = out@;
            let ghost prev_cur = cur@;
            out.push(cur);
            cur = String::new();
            proof {
                assert(views(out@) =~= views(prev_out).push(prev_cur));
                assert(views(out@) + split_rec(s@.skip(i + 1), sep, cur@) =~= views(
                    prev_out,
                ) + (seq![prev_cur] + split_rec(s@.skip(i + 1), sep, cur@)));
            }
        } else {
            cur.push(c);
        }
        i = i + 1;
    }
    proof {
        assert(s@.skip(n as int) =~= Seq::<char>::empty());
    }
    let ghost prev_out = out@;
    let ghost prev_cur = cur@;
    out.push(cur);
    proof {
        assert(views(out@) =~= views(prev_out).push(prev_cur));
        assert(views(out@) =~= views(prev_out) + seq![prev_cur]);
    }
    out
}

} // verus!

verus! {

/// The ASCII-lowercase image of a character: letters `A` to `Z` map to
/// `a` to `z`, every other character is left as it is.
pub open spec fn lower_char(c: char) -> char {
    match c {
        'A' => 'a',
        'B' => 'b',
        'C' => 'c',
        'D' => 'd',
        'E' => 'e',
        'F' => 'f',
        'G' => 'g',
        'H' => 'h',
        'I' => 'i',
        'J' => 'j',
        'K' => 'k',
        'L' => 'l',
        'M' => 'm',
        'N' => 'n',
        'O' => 'o',
        'P' => 'p',
        'Q' => 'q',
        'R' => 'r',
        'S' => 's',
        'T' => 't',
        'U' => 'u',
        'V' => 'v',
        'W' => 'w',
        'X' => 'x',
        'Y' => 'y',
        'Z' => 'z',
        _ => c,
    }
}

/// The ASCII-lowercase image of a whole sequence.
pub open spec fn lower(s: Seq<char>) -> Seq<char> {
    s.map_values(|c: char| lower_char(c))
}

/// Lower-case one character, ASCII letters only.
pub fn lower_char_exec(c: char) -> (r: char)
    ensures
        r == lower_char(c),
{
    match c {
        'A' => 'a',
        'B' => 'b',
        'C' => 'c',
        'D' => 'd',
        'E' => 'e',
        'F' => 'f',
        'G' => 'g',
        'H' => 'h',
        'I' => 'i',
        'J' => 'j',
        'K' => 'k',
        'L' => 'l',
        'M' => 'm',
        'N' => 'n',
        'O' => 'o',
        'P' => 'p',
        'Q' => 'q',
        'R' => 'r',
        'S' => 's',
        'T' => 't',
        'U' => 'u',
        'V' => 'v',
        'W' => 'w',
        'X' => 'x',
        'Y' => 'y',
        'Z' => 'z',
        _ => c,
    }
}

/// Whether `s` equals `t` once both are ASCII-lowercased.
pub open spec fn eq_ignore_case(s: Seq<char>, t: Seq<char>) -> bool {
    lower(s) == lower(t)
}

/// Compare two strings ignoring ASCII case.
pub fn eq_ignore_case_exec(s: &str, t: &str) -> (r: bool)
    ensures
        r == eq_ignore_case(s@, t@),
{
    let n = s.unicode_len();
    let m = t.unicode_len();
    if n != m {
        proof {
            assert(lower(s@).len() == s@.len());
            assert(lower(t@).len() == t@.len());
        }
        return false;
    }
    let mut i: usize = 0;
    while i < n
        invariant
            0 <= i <= n,
            n == s@.len(),
            n == t@.len(),
            forall|k: int| 0 <= k < i ==> lower(s@)[k] == lower(t@)[k],
        decreases n - i,
    {
        if lower_char_exec(s.get_char(i)) != lower_char_exec(t.get_char(i)) {
            proof {
                assert(lower(s@)[i as int] == lower_char(s@[i as int]));
                assert(lower(t@)[i as int] == lower_char(t@[i as int]));
            }
            return false;
        }
        i = i + 1;
    }
    proof {
        assert(lower(s@) =~= lower(t@));
    }
    true
}

} // verus!

verus! {

/// Test whether two strings hold the same characters.
pub fn str_eq(s: &str, t: &str) -> (r: bool)
    ensures
        r == (s@ == t@),
{
    let n = s.unicode_len();
    let m = t.unicode_len();
    if n != m {
        return false;
    }
    let mut i: usize = 0;
    while i < n
        invariant
            0 <= i <= n,
            n == s@.len(),
            n == t@.len(),
            forall|k: int| 0 <= k < i ==> s@[k] == t@[k],
        decreases n - i,
    {
        if s.get_char(i) != t.get_char(i) {
            return false;
        }
        i = i + 1;
    }
    proof {
        assert(s@ =~= t@);
    }
    true
}

/// Whether `p` is a prefix of `s`.
pub open spec fn has_prefix(s: Seq<char>, p: Seq<char>) -> bool {
    s.len() >= p.len() && s.take(p.len() as int) == p
}

/// Test whether `s` starts with `p`.
pub fn starts_with_str(s: &str, p: &str) -> (r: bool)
    ensures
        r == has_prefix(s@, p@),
{
    let n = s.unicode_len();
    let m = p.unicode_len();
    if m > n {
        return false;
    }
    let mut i: usize = 0;
    while i < m
        invariant
            0 <= i <= m,
            m <= n,
            n == s@.len(),
            m == p@.len(),
            forall|k: int| 0 <= k < i ==> s@[k] == p@[k],
        decreases m - i,
    {
        if s.get_char(i) != p.get_char(i) {
            proof {
                assert(s@.take(m as int)[i as int] == s@[i as int]);
            }
            return false;
        }
        i = i + 1;
    }
    proof {
        assert(s@.take(m as int) =~= p@);
    }
    true
}

/// Whether `p` occurs in `s` as a contiguous run.
pub open spec fn has_substring(s: Seq<char>, p: Seq<char>) -> bool {
    exists|i: int| 0 <= i <= s.len() - p.len() && #[trigger] s.subrange(i, i + p.len()) == p
}

/// Test whether `p` occurs anywhere in `s`.
pub fn contains_str(s: &str, p: &str) -> (r: bool)
    ensures
        r == has_substring(s@, p@),
{
    let n = s.unicode_len();
    let m = p.unicode_len();
    if m > n {
        return false;
    }
    if m == 0 {
        proof {
            assert(s@.subrange(0, 0 + p@.len() as int) =~= p@);
        }
        return true;
    }
    let mut i: usize = 0;
    while i <= n - m
        invariant
            0 <= i <= n - m + 1,
            1 <= m <= n,
            n == s@.len(),
            m == p@.len(),
            forall|k: int| 0 <= k < i ==> #[trigger] s@.subrange(k, k + p@.len()) != p@,
        decreases n - i,
    {
        let piece = s.substring_char(i, i + m);
        if str_eq(piece, p) {
            proof {
                assert(s@.subrange(i as int, i + p@.len()) == p@);
            }
            return true;
        }
        i = i + 1;
    }
    false
}

/// `s` with every occurrence of `pat` replaced by `rep`, scanning left to
/// right without overlap; an empty pattern leaves `s` unchanged.
pub open spec fn replace_seq(s: Seq<char>, pat: Seq<char>, rep: Seq<char>) -> Seq<char>
    decreases s.len(),
{
    if pat.len() == 0 || s.len() < pat.len() {
        s
    } else if s.take(pat.len() as int) == pat {
        rep + replace_seq(s.skip(pat.len() as int), pat, rep)
    } else {
        seq![s[0]] + replace_seq(s.skip(1), pat, rep)
    }
}

/// Replace every occurrence of `pat` in `s` by `rep`, left to right.
pub fn replace_str(s: &str, pat: &str, rep: &str) -> (r: String)
    ensures
        r@ == replace_seq(s@, pat@, rep@),
    decreases s@.len(),
{
    let n = s.unicode_len();
    let m = pat.unicode_len();
    if m == 0 || n < m {
        return s.to_owned();
    }
    if starts_with_str(s, pat) {
        let rest = replace_str(s.substring_char(m, n), pat, rep);
        proof {
            assert(s@.subrange(m as int, n as int) =~= s@.skip(m as int));
        }
        let mut out = rep.to_owned();
        out.append(rest.as_str());
        out
    } else {
        let rest = replace_str(s.substring_char(1, n), pat, rep);
        proof {
            assert(s@.subrange(1, n as int) =~= s@.skip(1));
        }
        let mut out = String::new();
        out.push(s.get_char(0));
        out.append(rest.as_str());
        proof {
            assert(out@ =~= seq![s@[0]] + rest@);
        }
        out
    }
}

/// True of the characters treated as blank space when command text is cut
/// into words.
pub open spec fn is_blank(c: char) -> bool {
    c == ' ' || c == '\t' || c == '\n' || c == '\r'
}

/// Word-splitting helper: the words of `s`, where `cur` holds the word read
/// so far; empty words are dropped.
pub open spec fn words_rec(s: Seq<char>, cur: Seq<char>) -> Seq<Seq<char>>
    decreases s.len(),
{
    if s.len() == 0 {
        if cur.len() == 0 {
            Seq::empty()
        } else {
            seq![cur]
        }
    } else if is_blank(s[0]) {
        if cur.len() == 0 {
            words_rec(s.skip(1), Seq::empty())
        } else {
            seq![cur] + words_rec(s.skip(1), Seq::empty())
        }
    } else {
        words_rec(s.skip(1), cur.push(s[0]))
    }
}

/// The words of `s`: maximal runs of non-blank characters, in order.
pub open spec fn words(s: Seq<char>) -> Seq<Seq<char>> {
    words_rec(s, Seq::empty())
}

proof fn lemma_words_rec_step(s: Seq<char>, cur: Seq<char>, i: int)
    requires
        0 <= i < s.len(),
    ensures
        words_rec(s.skip(i), cur) == if is_blank(s[i]) {
            if cur.len() == 0 {
                words_rec(s.skip(i + 1), Seq::<char>::empty())
            } else {
                seq![cur] + words_rec(s.skip(i + 1), Seq::<char>::empty())
            }
        } else {
            words_rec(s.skip(i + 1), cur.push(s[i]))
        },
{
    assert(s.skip(i).len() > 0);
    assert(s.skip(i)[0] == s[i]);
    assert(s.skip(i).skip(1) =~= s.skip(i + 1));
}

/// Cut `s` into words at blank characters, dropping empty pieces.
pub fn split_words(s: &str) -> (r: Vec<String>)
    ensures
        views(r@) == words(s@),
{
    let n = s.unicode_len();
    let mut out: Vec<String> = Vec::new();
    let mut cur = String::new();
    let mut i: usize = 0;
    proof {
        assert(s@.skip(0) =~= s@);
        assert(views(out@) =~= Seq::<Seq<char>>::empty());
        assert(views(out@) + words_rec(s@, cur@) =~= words_rec(s@, cur@));
    }
    while i < n
        invariant
            0 <= i <= n,
            n == s@.len(),
            words(s@) == views(out@) + words_rec(s@.skip(i as int), cur@),
        decreases n - i,
    {
        let c = s.get_char(i);
        proof {
            lemma_words_rec_step(s@, cur@, i as int);
        }
        if c == ' ' || c == '\t' || c == '\n' || c == '\r' {
            if cur.as_str().unicode_len() > 0 {
                let ghost prev_out = out@;
                let ghost prev_cur = cur@;
                out.push(cur);
                cur = String::new();
                proof {
                    assert(prev_cur.len() > 0);
                    assert(views(out@) =~= views(prev_out).push(prev_cur));
                    assert(views(out@) + words_rec(s@.skip(i + 1), cur@) =~= views(prev_out) + (
                    seq![prev_cur] + words_rec(s@.skip(i + 1), cur@)));
                }
            } else {
                proof {
                    assert(cur@ =~= Seq::<char>::empty());
                }
            }
        } else {
            cur.push(c);
        }
        i = i + 1;
    }
    proof {
        assert(s@.skip(n as int) =~= Seq::<char>::empty());
    }
    if cur.as_str().unicode_len() > 0 {
        let ghost prev_out = out@;
        let ghost prev_cur = cur@;
        out.push(cur);
        proof {
            assert(views(out@) =~= views(prev_out).push(prev_cur));
            assert(views(out@) =~= views(prev_out) + seq![prev_cur]);
        }
    } else {
        proof {
            assert(views(out@) + Seq::<Seq<char>>::empty() =~= views(out@));
        }
    }
    out
}

} // verus!

verus! {

/// Whether `s` ends with `p`.
pub open spec fn has_suffix(s: Seq<char>, p: Seq<char>) -> bool {
    s.len() >= p.len() && s.skip(s.len() - p.len()) == p
}

/// Cut `suffix` off the end of `s`, or `None` when `s` does not end with
/// it.
pub fn strip_suffix_str(s: &str, suffix: &str) -> (r: Option<String>)
    ensures
        r is Some <==> has_suffix(s@, suffix@),
        r matches Some(p) ==> p@ == s@.take(s@.len() - suffix@.len()),
{
    let n = s.unicode_len();
    let m = suffix.unicode_len();
    if m > n {
        return None;
    }
    let tail = s.substring_char(n - m, n);
    if str_eq(tail, suffix) {
        proof {
            assert(s@.subrange(n - m, n as int) =~= s@.skip(s@.len() - suffix@.len()));
        }
        let stem = s.substring_char(0, n - m);
        proof {
            assert(s@.subrange(0, n - m) =~= s@.take(s@.len() - suffix@.len()));
        }
        Some(stem.to_owned())
    } else {
        proof {
            assert(s@.subrange(n - m, n as int) =~= s@.skip(s@.len() - suffix@.len()));
        }
        None
    }
}

} // verus!

verus! {

/// Law: replacement is a no-op on text without the pattern — a string in
/// which `pat` does not occur comes back unchanged.
pub proof fn lemma_replace_absent(s: Seq<char>, pat: Seq<char>, rep: Seq<char>)
    requires
        !has_substring(s, pat),
    ensures
        replace_seq(s, pat, rep) == s,
    decreases s.len(),
{
    if pat.len() == 0 || s.len() < pat.len() {
    } else {
        assert(s.subrange(0, pat.len() as int) == s.take(pat.len() as int));
        if s.take(pat.len() as int) == pat {
            assert(s.subrange(0, 0 + pat.len() as int) == pat);
            assert(has_substring(s, pat));
        } else {
            assert forall|i: int|
                0 <= i <= s.skip(1).len() - pat.len() implies #[trigger] s.skip(1).subrange(
                i,
                i + pat.len(),
            ) != pat by {
                assert(s.skip(1).subrange(i, i + pat.len()) =~= s.subrange(i + 1, i + 1 + pat.len()));
            }
            lemma_replace_absent(s.skip(1), pat, rep);
            assert(seq![s[0]] + s.skip(1) =~= s);
        }
    }
}

} // verus!
