//! Character-level text primitives: whitespace, substring search, line
//! splitting and whitespace-separated fields, over `Seq<char>` models.
use vstd::prelude::*;

verus! {

/// Unicode `White_Space`, the set that `char::is_whitespace` tests.
pub open spec fn is_space(c: char) -> bool {
    let v = c as u32;
    ||| 0x09 <= v <= 0x0D
    ||| v == 0x20
    ||| v == 0x85
    ||| v == 0xA0
    ||| v == 0x1680
    ||| 0x2000 <= v <= 0x200A
    ||| v == 0x2028
    ||| v == 0x2029
    ||| v == 0x202F
    ||| v == 0x205F
    ||| v == 0x3000
}

/// Whether `c` is a Unicode whitespace character.
pub fn char_is_space(c: char) -> (r: bool)
    ensures
        r == is_space(c),
{
    let v = c as u32;
    (0x09 <= v && v <= 0x0D) || v == 0x20 || v == 0x85 || v == 0xA0 || v == 0x1680 || (0x2000
        <= v && v <= 0x200A) || v == 0x2028 || v == 0x2029 || v == 0x202F || v == 0x205F || v
        == 0x3000
}

/// The text view of an optional string.
pub open spec fn opt_text(o: Option<String>) -> Option<Seq<char>> {
    match o {
        Some(s) => Some(s@),
        None => None,
    }
}

/// Whether every character of `s` is whitespace (true of the empty text).
pub open spec fn all_space(s: Seq<char>) -> bool {
    forall|i: int| 0 <= i < s.len() ==> is_space(#[trigger] s[i])
}

/// Whether `p` occurs in `s` as a contiguous run of characters.
pub open spec fn has_infix(s: Seq<char>, p: Seq<char>) -> bool {
    exists|j: int| 0 <= j && j + p.len() <= s.len() && #[trigger] s.subrange(j, j + p.len()) == p
}

/// Whether `s` holds the character `c`.
pub open spec fn has_char(s: Seq<char>, c: char) -> bool {
    exists|i: int| 0 <= i < s.len() && s[i] == c
}

/// The characters of `s`, as a vector.
pub fn chars_of(s: &str) -> (r: Vec<char>)
    ensures
        r@ == s@,
{
    let n = s.unicode_len();
    let mut r: Vec<char> = Vec::new();
    let mut i: usize = 0;
    while i < n
        invariant
            n == s@.len(),
            i <= n,
            r@ == s@.take(i as int),
        decreases n - i,
    {
        r.push(s.get_char(i));
        assert(s@.take(i as int).push(s@[i as int]) =~= s@.take(i + 1));
        i = i + 1;
    }
    assert(s@.take(n as int) =~= s@);
    r
}

/// Whether `p` occurs in the characters `s[from..to]`.
pub fn infix_within(s: &Vec<char>, from: usize, to: usize, p: &Vec<char>) -> (r: bool)
    requires
        from <= to <= s@.len(),
    ensures
        r == has_infix(s@.subrange(from as int, to as int), p@),
{
    let ghost line = s@.subrange(from as int, to as int);
    let plen = p.len();
    if plen > to - from {
        proof {
            assert forall|j: int| 0 <= j && j + p@.len() <= line.len() implies #[trigger] line.subrange(
                j,
                j + p@.len(),
            ) != p@ by {}
        }
        return false;
    }
    let last = to - plen;
    let mut j: usize = from;
    while j <= last
        invariant
            from <= j <= last + 1,
            last + plen == to,
            to <= s@.len(),
            plen == p@.len(),
            line == s@.subrange(from as int, to as int),
            forall|q: int|
                0 <= q < j - from ==> #[trigger] line.subrange(q, q + p@.len()) != p@,
        decreases last + 1 - j,
    {
        let mut k: usize = 0;
        while k < plen && s[j + k] == p[k]
            invariant
                from <= j <= last,
                last + plen == to,
                to <= s@.len(),
                plen == p@.len(),
                k <= plen,
                forall|t: int| 0 <= t < k ==> s@[j + t] == p@[t],
            decreases plen - k,
        {
            k = k + 1;
        }
        let ghost q = j - from;
        if k == plen {
            assert(line.subrange(q, q + p@.len()) =~= p@);
            return true;
        }
        assert(line.subrange(q, q + p@.len())[k as int] == s@[j + k]);
        j = j + 1;
    }
    false
}

/// Whether `s` holds the character `c`.
pub fn str_has_char(s: &str, c: char) -> (r: bool)
    ensures
        r == has_char(s@, c),
{
    let n = s.unicode_len();
    let mut i: usize = 0;
    while i < n
        invariant
            n == s@.len(),
            i <= n,
            forall|t: int| 0 <= t < i ==> s@[t] != c,
        decreases n - i,
    {
        if s.get_char(i) == c {
            return true;
        }
        i = i + 1;
    }
    false
}

/// Whether every character of `s` is whitespace.
pub fn str_all_space(s: &str) -> (r: bool)
    ensures
        r == all_space(s@),
{
    let n = s.unicode_len();
    let mut i: usize = 0;
    while i < n
        invariant
            n == s@.len(),
            i <= n,
            forall|t: int| 0 <= t < i ==> is_space(#[trigger] s@[t]),
        decreases n - i,
    {
        if !char_is_space(s.get_char(i)) {
            return false;
        }
        i = i + 1;
    }
    true
}

/// The leading run of non-whitespace characters of `s`.
pub open spec fn leading_word(s: Seq<char>) -> Seq<char>
    decreases s.len(),
{
    if s.len() == 0 || is_space(s[0]) {
        Seq::empty()
    } else {
        seq![s[0]] + leading_word(s.drop_first())
    }
}

/// The first whitespace-separated field of `s` (empty when `s` is blank).
pub open spec fn first_field(s: Seq<char>) -> Seq<char>
    decreases s.len(),
{
    if s.len() > 0 && is_space(s[0]) {
        first_field(s.drop_first())
    } else {
        leading_word(s)
    }
}

/// Position of the first newline of `s`, or its length when there is none.
pub open spec fn newline_at(s: Seq<char>) -> int
    decreases s.len(),
{
    if s.len() == 0 || s[0] == '\n' {
        0
    } else {
        1 + newline_at(s.drop_first())
    }
}

/// A line with one trailing carriage return removed.
pub open spec fn without_cr(line: Seq<char>) -> Seq<char> {
    if line.len() > 0 && line.last() == '\r' {
        line.drop_last()
    } else {
        line
    }
}

/// The lines of `s`: the pieces between newlines, each without a trailing
/// carriage return. The piece after the last newline is included, even empty.
pub open spec fn lines_of(s: Seq<char>) -> Seq<Seq<char>>
    decreases s.len(),
{
    let k = newline_at(s);
    if 0 <= k < s.len() {
        seq![without_cr(s.take(k))] + lines_of(s.skip(k + 1))
    } else {
        seq![without_cr(s)]
    }
}

/// `newline_at` finds the first newline: a run free of newlines that ends at
/// a newline or at the end of `s` ends where `newline_at` says.
pub proof fn lemma_newline_at(s: Seq<char>, k: int)
    requires
        0 <= k <= s.len(),
        forall|i: int| 0 <= i < k ==> s[i] != '\n',
        k == s.len() || s[k] == '\n',
    ensures
        newline_at(s) == k,
    decreases k,
{
    if k > 0 {
        let t = s.drop_first();
        assert forall|i: int| 0 <= i < k - 1 implies t[i] != '\n' by {
            assert(t[i] == s[i + 1]);
        }
        assert(k - 1 == t.len() || t[k - 1] == '\n');
        lemma_newline_at(t, k - 1);
    }
}

/// Lines of `s` from position `from` on, split at the first newline found at `end`.
pub proof fn lemma_lines_step(s: Seq<char>, from: int, end: int)
    requires
        0 <= from <= end <= s.len(),
        forall|i: int| from <= i < end ==> s[i] != '\n',
        end == s.len() || s[end] == '\n',
    ensures
        end < s.len() ==> lines_of(s.skip(from)) == seq![without_cr(s.subrange(from, end))]
            + lines_of(s.skip(end + 1)),
        end == s.len() ==> lines_of(s.skip(from)) == seq![without_cr(s.subrange(from, end))],
{
    let t = s.skip(from);
    assert forall|i: int| 0 <= i < end - from implies t[i] != '\n' by {
        assert(t[i] == s[from + i]);
    }
    if end < s.len() {
        assert(t[end - from] == s[end]);
    }
    lemma_newline_at(t, end - from);
    assert(t.take(end - from) =~= s.subrange(from, end));
    if end < s.len() {
        assert(t.skip(end - from + 1) =~= s.skip(end + 1));
    } else {
        assert(t =~= s.subrange(from, end));
    }
}

/// Skipping one leading whitespace character leaves the first field unchanged.
proof fn lemma_first_field_skip(s: Seq<char>, a: int, b: int)
    requires
        0 <= a < b <= s.len(),
        is_space(s[a]),
    ensures
        first_field(s.subrange(a, b)) == first_field(s.subrange(a + 1, b)),
{
    assert(s.subrange(a, b).drop_first() =~= s.subrange(a + 1, b));
}

/// The leading word of `s[a..e]` grows by `s[b]` as long as `s[b]` is not whitespace.
proof fn lemma_leading_word_run(s: Seq<char>, a: int, b: int, e: int)
    requires
        0 <= a <= b <= e <= s.len(),
        forall|i: int| a <= i < b ==> !is_space(#[trigger] s[i]),
    ensures
        leading_word(s.subrange(a, e)) == s.subrange(a, b) + leading_word(s.subrange(b, e)),
    decreases b - a,
{
    if a < b {
        lemma_leading_word_run(s, a + 1, b, e);
        assert(s.subrange(a, e).drop_first() =~= s.subrange(a + 1, e));
        assert(s.subrange(a, b) =~= seq![s[a]] + s.subrange(a + 1, b));
    } else {
        assert(s.subrange(a, b) =~= Seq::<char>::empty());
    }
}

/// Start and end of the first whitespace-separated field of `s[from..to]`.
pub fn first_field_bounds(s: &Vec<char>, from: usize, to: usize) -> (r: (usize, usize))
    requires
        from <= to <= s@.len(),
    ensures
        from <= r.0 <= r.1 <= to,
        s@.subrange(r.0 as int, r.1 as int) == first_field(s@.subrange(from as int, to as int)),
{
    let mut a: usize = from;
    while a < to && char_is_space(s[a])
        invariant
            from <= a <= to,
            to <= s@.len(),
            first_field(s@.subrange(from as int, to as int)) == first_field(
                s@.subrange(a as int, to as int),
            ),
        decreases to - a,
    {
        proof {
            lemma_first_field_skip(s@, a as int, to as int);
        }
        a = a + 1;
    }
    let mut b: usize = a;
    while b < to && !char_is_space(s[b])
        invariant
            a <= b <= to,
            to <= s@.len(),
            forall|i: int| a <= i < b ==> !is_space(#[trigger] s@[i]),
        decreases to - b,
    {
        b = b + 1;
    }
    proof {
        lemma_leading_word_run(s@, a as int, b as int, to as int);
        assert(leading_word(s@.subrange(b as int, to as int)) =~= Seq::<char>::empty()) by {
            if b < to {
                assert(s@.subrange(b as int, to as int)[0] == s@[b as int]);
            }
        }
        assert(s@.subrange(a as int, b as int) + Seq::<char>::empty() =~= s@.subrange(
            a as int,
            b as int,
        ));
        if a < to {
            assert(s@.subrange(a as int, to as int)[0] == s@[a as int]);
        }
    }
    (a, b)
}

} // verus!
