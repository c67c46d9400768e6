//! Character-level text operations with their specifications: searching
//! for a pattern, trimming white space and splitting at line breaks.
#![allow(unused_imports)]

use vstd::prelude::*;
use vstd::string::*;

verus! {

// ── Pattern search ────────────────────────────────────────────────────────────

/// `pat` occurs in `s` at index `i`.
pub open spec fn matches_at(s: Seq<char>, pat: Seq<char>, i: int) -> bool {
    0 <= i && i + pat.len() <= s.len() && s.subrange(i, i + pat.len()) == pat
}

/// The first index at or after `i` where `pat` occurs in `s`.
pub open spec fn find_from(s: Seq<char>, pat: Seq<char>, i: nat) -> Option<int>
    decreases s.len() + 1 - i,
{
    if i + pat.len() > s.len() {
        None
    } else if matches_at(s, pat, i as int) {
        Some(i as int)
    } else {
        find_from(s, pat, i + 1)
    }
}

/// The first index where `pat` occurs in `s` (what `str::find` gives, in
/// characters).
pub open spec fn find(s: Seq<char>, pat: Seq<char>) -> Option<int> {
    find_from(s, pat, 0)
}

/// What `find_from` gives is an occurrence, and there is none before it.
pub proof fn lemma_find_from(s: Seq<char>, pat: Seq<char>, i: nat)
    ensures
        match find_from(s, pat, i) {
            Some(k) => i <= k && matches_at(s, pat, k) && forall|j: int| i <= j < k ==> !matches_at(s, pat, j),
            None => forall|j: int| i <= j ==> !matches_at(s, pat, j),
        },
    decreases s.len() + 1 - i,
{
    if i + pat.len() > s.len() {
    } else if matches_at(s, pat, i as int) {
    } else {
        lemma_find_from(s, pat, i + 1);
    }
}

/// `find` gives the first occurrence, or `None` when there is none.
pub proof fn lemma_find(s: Seq<char>, pat: Seq<char>)
    ensures
        match find(s, pat) {
            Some(k) => 0 <= k && matches_at(s, pat, k) && forall|j: int| 0 <= j < k ==> !matches_at(s, pat, j),
            None => forall|j: int| 0 <= j ==> !matches_at(s, pat, j),
        },
{
    lemma_find_from(s, pat, 0);
}

/// An occurrence at `k` with none before it is what `find` gives.
pub proof fn lemma_find_is(s: Seq<char>, pat: Seq<char>, k: int)
    requires
        matches_at(s, pat, k),
        forall|j: int| 0 <= j < k ==> !matches_at(s, pat, j),
    ensures
        find(s, pat) == Some(k),
{
    lemma_find(s, pat);
}

/// Whether `pat` occurs in `hay` at `i`.
fn matches_here(hay: &Vec<char>, pat: &Vec<char>, i: usize) -> (r: bool)
    requires
        i + pat@.len() <= hay@.len(),
    ensures
        r == matches_at(hay@, pat@, i as int),
{
    let mut j: usize = 0;
    while j < pat.len()
        invariant
            j <= pat@.len(),
            i + pat@.len() <= hay.len(),
            forall|k: int| 0 <= k < j ==> hay@[i + k] == pat@[k],
        decreases pat@.len() - j,
    {
        if hay[i + j] != pat[j] {
            assert(hay@.subrange(i as int, i + pat@.len())[j as int] != pat@[j as int]);
            return false;
        }
        j = j + 1;
    }
    assert(hay@.subrange(i as int, i + pat@.len()) =~= pat@);
    true
}

/// The first index where `pat` occurs in `hay`.
pub fn find_chars(hay: &Vec<char>, pat: &Vec<char>) -> (r: Option<usize>)
    ensures
        match r {
            Some(i) => find(hay@, pat@) == Some(i as int),
            None => find(hay@, pat@) is None,
        },
{
    if pat.len() > hay.len() {
        return None;
    }
    let last = hay.len() - pat.len();
    let mut i: usize = 0;
    loop
        invariant
            pat@.len() <= hay@.len(),
            last == hay@.len() - pat@.len(),
            i <= last,
            find(hay@, pat@) == find_from(hay@, pat@, i as nat),
        decreases last - i,
    {
        if matches_here(hay, pat, i) {
            return Some(i);
        }
        if i == last {
            assert(find_from(hay@, pat@, (i + 1) as nat) is None);
            return None;
        }
        i = i + 1;
    }
}

/// Whether `pat` occurs in `hay` (what `str::contains` gives for a `&str`
/// pattern).
pub fn contains_text(hay: &str, pat: &str) -> (r: bool)
    ensures
        r == (find(hay@, pat@) is Some),
{
    let h = crate::utils::chars_of(hay);
    let p = crate::utils::chars_of(pat);
    find_chars(&h, &p).is_some()
}

/// The characters `a` then `b` stand next to each other somewhere in `s`.
pub open spec fn has_pair(s: Seq<char>, a: char, b: char) -> bool {
    exists|j: int| 0 <= j && j + 1 < s.len() && #[trigger] s[j] == a && s[j + 1] == b
}

/// A pattern that holds the pair `pat[m], pat[m + 1]` cannot occur in a
/// text without that pair.
pub proof fn lemma_no_pair_no_match(s: Seq<char>, pat: Seq<char>, m: int, i: int)
    requires
        0 <= m,
        m + 1 < pat.len(),
        !has_pair(s, pat[m], pat[m + 1]),
    ensures
        !matches_at(s, pat, i),
{
    if matches_at(s, pat, i) {
        assert(s[i + m] == s.subrange(i, i + pat.len())[m]);
        assert(s[i + m + 1] == s.subrange(i, i + pat.len())[m + 1]);
        assert(s[i + m] == pat[m] && s[i + m + 1] == pat[m + 1]);
    }
}

/// The pair condition for a concatenation.
pub proof fn lemma_pair_concat(x: Seq<char>, y: Seq<char>, a: char, b: char)
    requires
        !has_pair(x, a, b),
        !has_pair(y, a, b),
        x.len() > 0 && y.len() > 0 ==> !(x.last() == a && y[0] == b),
    ensures
        !has_pair(x + y, a, b),
{
    let s = x + y;
    if has_pair(s, a, b) {
        let j = choose|j: int| 0 <= j && j + 1 < s.len() && #[trigger] s[j] == a && s[j + 1] == b;
        if j + 1 < x.len() {
            assert(x[j] == a && x[j + 1] == b);
        } else if j >= x.len() {
            assert(y[j - x.len()] == a && y[j - x.len() + 1] == b);
        } else {
            assert(x.last() == a && y[0] == b);
        }
    }
}

/// No `a` directly followed by `b` in `s`, checked from the front.
pub open spec fn pair_free(s: Seq<char>, a: char, b: char) -> bool
    decreases s.len(),
{
    if s.len() < 2 {
        true
    } else {
        !(s[0] == a && s[1] == b) && pair_free(s.skip(1), a, b)
    }
}

/// `pair_free` means the pair occurs nowhere.
pub proof fn lemma_pair_free(s: Seq<char>, a: char, b: char)
    requires
        pair_free(s, a, b),
    ensures
        !has_pair(s, a, b),
    decreases s.len(),
{
    if s.len() >= 2 {
        lemma_pair_free(s.skip(1), a, b);
        if has_pair(s, a, b) {
            let j = choose|j: int| 0 <= j && j + 1 < s.len() && #[trigger] s[j] == a && s[j + 1] == b;
            if j > 0 {
                assert(s.skip(1)[j - 1] == a && s.skip(1)[j] == b);
            }
        }
    }
}

/// No character `c` in `s`, checked from the front.
pub open spec fn char_free(s: Seq<char>, c: char) -> bool
    decreases s.len(),
{
    if s.len() == 0 {
        true
    } else {
        s[0] != c && char_free(s.skip(1), c)
    }
}

/// `char_free` means the character occurs nowhere.
pub proof fn lemma_char_free(s: Seq<char>, c: char)
    requires
        char_free(s, c),
    ensures
        forall|i: int| 0 <= i < s.len() ==> s[i] != c,
    decreases s.len(),
{
    if s.len() > 0 {
        lemma_char_free(s.skip(1), c);
        assert forall|i: int| 0 <= i < s.len() implies s[i] != c by {
            if i > 0 {
                assert(s[i] == s.skip(1)[i - 1]);
            }
        }
    }
}

// ── White space ───────────────────────────────────────────────────────────────

/// Unicode `White_Space` (what `char::is_whitespace` tests).
pub open spec fn is_white(c: char) -> bool {
    let n = c as int;
    ||| 9 <= n <= 13
    ||| n == 32
    ||| n == 0x85
    ||| n == 0xA0
    ||| n == 0x1680
    ||| 0x2000 <= n <= 0x200A
    ||| n == 0x2028
    ||| n == 0x2029
    ||| n == 0x202F
    ||| n == 0x205F
    ||| n == 0x3000
}

/// Whether `c` is Unicode white space.
pub fn char_is_white(c: char) -> (r: bool)
    ensures
        r == is_white(c),
{
    let n = c as u32;
    (9 <= n && n <= 13) || n == 32 || n == 0x85 || n == 0xA0 || n == 0x1680 || (0x2000 <= n && n
        <= 0x200A) || n == 0x2028 || n == 0x2029 || n == 0x202F || n == 0x205F || n == 0x3000
}

/// `s` without its leading white space.
pub open spec fn trim_start(s: Seq<char>) -> Seq<char>
    decreases s.len(),
{
    if s.len() > 0 && is_white(s[0]) {
        trim_start(s.skip(1))
    } else {
        s
    }
}

/// `s` without its trailing white space.
pub open spec fn trim_end(s: Seq<char>) -> Seq<char>
    decreases s.len(),
{
    if s.len() > 0 && is_white(s.last()) {
        trim_end(s.drop_last())
    } else {
        s
    }
}

/// `s` without leading and trailing white space (what `str::trim` gives).
pub open spec fn trim(s: Seq<char>) -> Seq<char> {
    trim_end(trim_start(s))
}

/// The bounds `(start, end)` of `chars[from..to]` without leading and
/// trailing white space.
pub fn trim_bounds(chars: &Vec<char>, from: usize, to: usize) -> (r: (usize, usize))
    requires
        from <= to <= chars@.len(),
    ensures
        from <= r.0 <= r.1 <= to,
        chars@.subrange(r.0 as int, r.1 as int) == trim(chars@.subrange(from as int, to as int)),
{
    let mut a = from;
    while a < to && char_is_white(chars[a])
        invariant
            from <= a <= to <= chars@.len(),
            trim_start(chars@.subrange(from as int, to as int)) == trim_start(chars@.subrange(a as int, to as int)),
        decreases to - a,
    {
        assert(chars@.subrange(a as int, to as int).skip(1) =~= chars@.subrange(a + 1, to as int));
        a = a + 1;
    }
    let mut b = to;
    while b > a && char_is_white(chars[b - 1])
        invariant
            from <= a <= b <= to <= chars@.len(),
            trim_end(chars@.subrange(a as int, to as int)) == trim_end(chars@.subrange(a as int, b as int)),
        decreases b - a,
    {
        assert(chars@.subrange(a as int, b as int).drop_last() =~= chars@.subrange(a as int, b - 1));
        b = b - 1;
    }
    (a, b)
}

/// The bounds of `s` without leading and trailing white space, in characters.
pub fn trimmed(s: &str) -> (r: String)
    ensures
        r@ == trim(s@),
{
    let chars = crate::utils::chars_of(s);
    let (a, b) = trim_bounds(&chars, 0, chars.len());
    assert(chars@.subrange(0, chars@.len() as int) =~= s@);
    String::from_str(s.substring_char(a, b))
}

// ── Lines ─────────────────────────────────────────────────────────────────────

/// The pieces of `s` between `'\n'` characters (what `str::split('\n')` gives).
pub open spec fn split_lines(s: Seq<char>) -> Seq<Seq<char>>
    decreases s.len(),
{
    if s.len() == 0 {
        seq![Seq::<char>::empty()]
    } else {
        let r = split_lines(s.drop_last());
        if s.last() == '\n' {
            r.push(Seq::empty())
        } else {
            r.update(r.len() - 1, r.last().push(s.last()))
        }
    }
}

/// The trimmed pieces that are not empty, in order.
pub open spec fn nonempty_trimmed(pieces: Seq<Seq<char>>) -> Seq<Seq<char>>
    decreases pieces.len(),
{
    if pieces.len() == 0 {
        Seq::empty()
    } else {
        let r = nonempty_trimmed(pieces.drop_last());
        let t = trim(pieces.last());
        if t.len() == 0 {
            r
        } else {
            r.push(t)
        }
    }
}

/// The lines of `s`, each trimmed, without the empty ones.
pub open spec fn text_lines(s: Seq<char>) -> Seq<Seq<char>> {
    nonempty_trimmed(split_lines(s))
}

/// All pieces joined with nothing between them.
pub open spec fn concat_all(pieces: Seq<Seq<char>>) -> Seq<char>
    decreases pieces.len(),
{
    if pieces.len() == 0 {
        Seq::empty()
    } else {
        concat_all(pieces.drop_last()) + pieces.last()
    }
}

/// There is always at least one piece.
pub proof fn lemma_split_lines_nonempty(s: Seq<char>)
    ensures
        split_lines(s).len() >= 1,
    decreases s.len(),
{
    if s.len() > 0 {
        lemma_split_lines_nonempty(s.drop_last());
    }
}

/// A text without line breaks is one piece.
pub proof fn lemma_split_no_newline(s: Seq<char>)
    requires
        forall|i: int| 0 <= i < s.len() ==> s[i] != '\n',
    ensures
        split_lines(s) == seq![s],
    decreases s.len(),
{
    if s.len() > 0 {
        lemma_split_no_newline(s.drop_last());
        assert(s.drop_last().push(s.last()) =~= s);
        assert(split_lines(s) =~= seq![s]);
    } else {
        assert(s =~= Seq::<char>::empty());
    }
}

/// Splitting at a line break: the pieces of `a`, then those of `b`.
pub proof fn lemma_split_concat(a: Seq<char>, b: Seq<char>)
    ensures
        split_lines(a + seq!['\n'] + b) == split_lines(a) + split_lines(b),
    decreases b.len(),
{
    lemma_split_lines_nonempty(a);
    if b.len() == 0 {
        assert((a + seq!['\n'] + b).drop_last() =~= a);
        assert(split_lines(a) + split_lines(b) =~= split_lines(a).push(Seq::empty()));
    } else {
        let s = a + seq!['\n'] + b;
        assert(s.drop_last() =~= a + seq!['\n'] + b.drop_last());
        lemma_split_concat(a, b.drop_last());
        lemma_split_lines_nonempty(b.drop_last());
        assert(s.last() == b.last());
        if b.last() == '\n' {
            assert(split_lines(s) =~= split_lines(a) + split_lines(b));
        } else {
            assert(split_lines(s) =~= split_lines(a) + split_lines(b));
        }
    }
}

/// Dropping empty trimmed pieces distributes over concatenation.
pub proof fn lemma_nonempty_trimmed_concat(x: Seq<Seq<char>>, y: Seq<Seq<char>>)
    ensures
        nonempty_trimmed(x + y) == nonempty_trimmed(x) + nonempty_trimmed(y),
    decreases y.len(),
{
    if y.len() == 0 {
        assert(x + y =~= x);
        assert(nonempty_trimmed(x) + nonempty_trimmed(y) =~= nonempty_trimmed(x));
    } else {
        assert((x + y).drop_last() =~= x + y.drop_last());
        lemma_nonempty_trimmed_concat(x, y.drop_last());
        assert((x + y).last() == y.last());
        assert(nonempty_trimmed(x + y) =~= nonempty_trimmed(x) + nonempty_trimmed(y));
    }
}

/// Joining distributes over concatenation.
pub proof fn lemma_concat_all_concat(x: Seq<Seq<char>>, y: Seq<Seq<char>>)
    ensures
        concat_all(x + y) == concat_all(x) + concat_all(y),
    decreases y.len(),
{
    if y.len() == 0 {
        assert(x + y =~= x);
        assert(concat_all(x) + concat_all(y) =~= concat_all(x));
    } else {
        assert((x + y).drop_last() =~= x + y.drop_last());
        lemma_concat_all_concat(x, y.drop_last());
        assert(concat_all(x + y) =~= concat_all(x) + concat_all(y));
    }
}

/// The non-empty trimmed pieces of a single piece.
pub proof fn lemma_nonempty_trimmed_one(x: Seq<char>)
    ensures
        nonempty_trimmed(seq![x]) == (if trim(x).len() == 0 {
            Seq::<Seq<char>>::empty()
        } else {
            seq![trim(x)]
        }),
{
    let one = seq![x];
    assert(one.drop_last() =~= Seq::<Seq<char>>::empty());
    assert(one.last() == x);
    assert(nonempty_trimmed(one.drop_last()) == Seq::<Seq<char>>::empty());
    assert(Seq::<Seq<char>>::empty().push(trim(x)) =~= seq![trim(x)]);
}

/// Joining a single piece gives the piece.
pub proof fn lemma_concat_all_one(x: Seq<char>)
    ensures
        concat_all(seq![x]) == x,
{
    let one = seq![x];
    assert(one.drop_last() =~= Seq::<Seq<char>>::empty());
    assert(one.last() == x);
    assert(concat_all(one.drop_last()) == Seq::<char>::empty());
    assert(Seq::<char>::empty() + x =~= x);
}

/// A text without white space at its ends is its own trimming.
pub proof fn lemma_trim_unchanged(s: Seq<char>)
    requires
        s.len() > 0 ==> !is_white(s[0]) && !is_white(s.last()),
    ensures
        trim(s) == s,
{
}

/// The empty text trims to itself.
pub proof fn lemma_trim_empty()
    ensures
        trim(Seq::<char>::empty()) == Seq::<char>::empty(),
{
}

// ── Numbers ───────────────────────────────────────────────────────────────────

/// The decimal digits of `n`, most significant first, without leading zeros.
pub open spec fn decimal_text(n: nat) -> Seq<char>
    decreases n,
{
    if n < 10 {
        seq![(48 + n) as char]
    } else {
        decimal_text(n / 10) + seq![(48 + n % 10) as char]
    }
}

fn digit_text(d: u8) -> (r: &'static str)
    requires
        d < 10,
    ensures
        r@ == seq![(48 + d) as char],
{
    match d {
        0 => {
            proof { reveal_strlit("0"); }
            "0"
        },
        1 => {
            proof { reveal_strlit("1"); }
            "1"
        },
        2 => {
            proof { reveal_strlit("2"); }
            "2"
        },
        3 => {
            proof { reveal_strlit("3"); }
            "3"
        },
        4 => {
            proof { reveal_strlit("4"); }
            "4"
        },
        5 => {
            proof { reveal_strlit("5"); }
            "5"
        },
        6 => {
            proof { reveal_strlit("6"); }
            "6"
        },
        7 => {
            proof { reveal_strlit("7"); }
            "7"
        },
        8 => {
            proof { reveal_strlit("8"); }
            "8"
        },
        _ => {
            proof { reveal_strlit("9"); }
            "9"
        },
    }
}

/// Appends the decimal digits of `n` to `out`.
pub fn push_decimal(out: &mut String, n: u64)
    ensures
        final(out)@ == old(out)@ + decimal_text(n as nat),
    decreases n,
{
    if n >= 10 {
        push_decimal(out, n / 10);
    }
    out.append(digit_text((n % 10) as u8));
}

} // verus!
