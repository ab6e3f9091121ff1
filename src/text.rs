//! Character-level helpers over `&str`, stated over `Seq<char>`.
use vstd::prelude::*;

verus! {

/// Returns whether two strings hold the same characters.
pub fn text_eq(a: &str, b: &str) -> (r: bool)
    ensures
        r == (a@ == b@),
{
    let n = a.unicode_len();
    if n != b.unicode_len() {
        return false;
    }
    let mut i: usize = 0;
    while i < n
        invariant
            n == a@.len(),
            n == b@.len(),
            i <= n,
            forall|k: int| 0 <= k < i ==> a@[k] == b@[k],
        decreases n - i,
    {
        if a.get_char(i) != b.get_char(i) {
            return false;
        }
        i = i + 1;
    }
    assert(a@ =~= b@);
    true
}

} // verus!

verus! {

/// Scans `s` left to right: the words completed so far, and the word in progress.
pub open spec fn scan(s: Seq<char>) -> (Seq<Seq<char>>, Seq<char>)
    decreases s.len(),
{
    if s.len() == 0 {
        (Seq::empty(), Seq::empty())
    } else {
        let (done, cur) = scan(s.drop_last());
        if s.last() == ' ' {
            if cur.len() == 0 {
                (done, cur)
            } else {
                (done.push(cur), Seq::empty())
            }
        } else {
            (done, cur.push(s.last()))
        }
    }
}

/// The non-empty runs of `s` between single spaces, in order.
pub open spec fn words(s: Seq<char>) -> Seq<Seq<char>> {
    let (done, cur) = scan(s);
    if cur.len() == 0 {
        done
    } else {
        done.push(cur)
    }
}

/// The characters of each string.
pub open spec fn views(v: Seq<String>) -> Seq<Seq<char>> {
    v.map_values(|w: String| w@)
}

/// Splits `s` on single spaces and drops the empty pieces.
pub fn split_words(s: &str) -> (r: Vec<String>)
    ensures
        views(r@) == words(s@),
{
    let mut done: Vec<String> = Vec::new();
    let mut start: usize = 0;
    let mut i: usize = 0;
    let n = s.unicode_len();
    for c in it: s.chars()
        invariant
            n == s@.len(),
            it.seq() == s@,
            i == it.index(),
            start <= i <= s@.len(),
            scan(s@.take(i as int)) == (views(done@), s@.subrange(start as int, i as int)),
    {
        assert(s@.take(i + 1).drop_last() =~= s@.take(i as int));
        if c == ' ' {
            if start < i {
                let w = s.substring_char(start, i);
                let ghost before = done@;
                done.push(String::from_str(w));
                assert(views(done@) =~= views(before).push(w@));
            }
            start = i + 1;
        }
        i = i + 1;
    }
    assert(s@.take(i as int) =~= s@);
    if start < i {
        let w = s.substring_char(start, i);
        let ghost before = done@;
        done.push(String::from_str(w));
        assert(views(done@) =~= views(before).push(w@));
    }
    done
}

} // verus!

verus! {

/// `w` with every leading and every trailing double quote removed.
pub open spec fn unquoted(w: Seq<char>) -> Seq<char>
    decreases w.len(),
{
    if w.len() > 0 && w[0] == '"' {
        unquoted(w.drop_first())
    } else if w.len() > 0 && w.last() == '"' {
        unquoted(w.drop_last())
    } else {
        w
    }
}

proof fn lemma_unquoted_skips_front(w: Seq<char>, k: int)
    requires
        0 <= k <= w.len(),
        forall|j: int| 0 <= j < k ==> w[j] == '"',
    ensures
        unquoted(w) == unquoted(w.subrange(k, w.len() as int)),
    decreases k,
{
    if k > 0 {
        let rest = w.drop_first();
        assert forall|j: int| 0 <= j < k - 1 implies rest[j] == '"' by {
            assert(rest[j] == w[j + 1]);
        }
        lemma_unquoted_skips_front(rest, k - 1);
        assert(rest.subrange(k - 1, rest.len() as int) =~= w.subrange(k, w.len() as int));
    } else {
        assert(w.subrange(0, w.len() as int) =~= w);
    }
}

/// Removes every leading and every trailing double quote of `w`.
pub fn unquote(w: &str) -> (r: String)
    ensures
        r@ == unquoted(w@),
{
    let n = w.unicode_len();
    let mut lo: usize = 0;
    while lo < n && w.get_char(lo) == '"'
        invariant
            n == w@.len(),
            lo <= n,
            forall|j: int| 0 <= j < lo ==> w@[j] == '"',
        decreases n - lo,
    {
        lo = lo + 1;
    }
    proof {
        lemma_unquoted_skips_front(w@, lo as int);
    }
    let mut hi: usize = n;
    while hi > lo && w.get_char(hi - 1) == '"'
        invariant
            n == w@.len(),
            lo <= hi <= n,
            lo < n ==> w@[lo as int] != '"',
            unquoted(w@) == unquoted(w@.subrange(lo as int, hi as int)),
        decreases hi,
    {
        let ghost sub = w@.subrange(lo as int, hi as int);
        assert(sub[0] == w@[lo as int]);
        assert(sub.drop_last() =~= w@.subrange(lo as int, hi - 1));
        hi = hi - 1;
    }
    let sub = w.substring_char(lo, hi);
    proof {
        if lo < hi {
            assert(sub@[0] == w@[lo as int]);
        }
    }
    String::from_str(sub)
}

} // verus!

verus! {

/// Returns whether `s` begins with `prefix`.
pub fn starts_with_text(s: &str, prefix: &str) -> (r: bool)
    ensures
        r == prefix@.is_prefix_of(s@),
{
    let n = prefix.unicode_len();
    if n > s.unicode_len() {
        return false;
    }
    let mut i: usize = 0;
    while i < n
        invariant
            n == prefix@.len(),
            n <= s@.len(),
            i <= n,
            forall|k: int| 0 <= k < i ==> prefix@[k] == s@[k],
        decreases n - i,
    {
        if prefix.get_char(i) != s.get_char(i) {
            return false;
        }
        i = i + 1;
    }
    assert(prefix@ =~= s@.subrange(0, n as int));
    true
}

} // verus!

verus! {

/// Every character of `s` is ASCII.
pub open spec fn all_ascii(s: Seq<char>) -> bool {
    forall|i: int| 0 <= i < s.len() ==> (#[trigger] s[i] as u32) < 128
}

/// Whether `c` is an ASCII capital letter.
pub open spec fn is_ascii_upper(c: char) -> bool {
    'A' <= c && c <= 'Z'
}

/// `c` with an ASCII capital letter made small; any other character as it is.
pub open spec fn ascii_lower(c: char) -> char {
    if is_ascii_upper(c) {
        ((c as u32) + 32) as char
    } else {
        c
    }
}

/// Whether `c` has the Unicode `White_Space` property.
pub open spec fn is_white_space(c: char) -> bool {
    let u = c as u32;
    ||| 0x09 <= u <= 0x0D
    ||| u == 0x20
    ||| u == 0x85
    ||| u == 0xA0
    ||| u == 0x1680
    ||| 0x2000 <= u <= 0x200A
    ||| u == 0x2028
    ||| u == 0x2029
    ||| u == 0x202F
    ||| u == 0x205F
    ||| u == 0x3000
}

/// `s` without its leading and trailing white space.
pub open spec fn trimmed(s: Seq<char>) -> Seq<char>
    decreases s.len(),
{
    if s.len() > 0 && is_white_space(s[0]) {
        trimmed(s.drop_first())
    } else if s.len() > 0 && is_white_space(s.last()) {
        trimmed(s.drop_last())
    } else {
        s
    }
}

} // verus!
