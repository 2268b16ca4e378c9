//! Character-level text operations on which the parsers and the state logic are built.
//!
//! Strings are reasoned about through their view, a `Seq<char>`.
use vstd::prelude::*;

verus! {

// ---------------------------------------------------------------------------
// Trusted calls into std
// ---------------------------------------------------------------------------
/// Appends one character with `String::push`.
/// Claimed: the string afterwards is the old one followed by `c`.
#[verifier::external_body]
pub(crate) fn push_char(s: &mut String, c: char)
    ensures
        final(s)@ == old(s)@.push(c),
{
    s.push(c);
}

/// Removes the last character with `String::pop`.
/// Claimed: `None` and no change for an empty string, else the last character, removed.
#[verifier::external_body]
pub(crate) fn pop_char(s: &mut String) -> (r: Option<char>)
    ensures
        old(s)@.len() == 0 ==> r is None && final(s)@ == old(s)@,
        old(s)@.len() > 0 ==> r == Some(old(s)@.last()) && final(s)@ == old(s)@.drop_last(),
{
    s.pop()
}

/// What `str::to_lowercase` returns for a string: the Unicode lowercase mapping of
/// each character, which depends on the characters alone.
pub uninterp spec fn lowercase_of(s: Seq<char>) -> Seq<char>;

/// Lowercases with `str::to_lowercase`.
/// Claimed: the result is `lowercase_of` of the argument; the mapping itself is not stated.
#[verifier::external_body]
pub(crate) fn to_lowercase(s: &str) -> (r: String)
    ensures
        r@ == lowercase_of(s@),
{
    s.to_lowercase()
}

// ---------------------------------------------------------------------------
// Conversions
// ---------------------------------------------------------------------------
/// The characters of a string slice.
pub fn chars_of(s: &str) -> (r: Vec<char>)
    ensures
        r@ == s@,
{
    let mut v: Vec<char> = Vec::new();
    for c in it: s.chars()
        invariant
            it.seq() == s@,
            v@ == it.seq().take(it.index() as int),
    {
        v.push(c);
    }
    v
}

/// A string holding the characters `s[from..to]`.
pub fn string_of_range(s: &Vec<char>, from: usize, to: usize) -> (r: String)
    requires
        from <= to <= s.len(),
    ensures
        r@ == s@.subrange(from as int, to as int),
{
    let mut r = String::new();
    let mut i = from;
    while i < to
        invariant
            from <= i <= to <= s.len(),
            r@ == s@.subrange(from as int, i as int),
        decreases to - i,
    {
        push_char(&mut r, s[i]);
        assert(s@.subrange(from as int, i + 1) == s@.subrange(from as int, i as int).push(s@[i as int]));
        i += 1;
    }
    r
}

/// A string holding the characters `s`.
pub fn string_of(s: &Vec<char>) -> (r: String)
    ensures
        r@ == s@,
{
    let r = string_of_range(s, 0, s.len());
    assert(s@.subrange(0, s@.len() as int) == s@);
    r
}

/// `a` followed by `b`.
pub fn concat(a: &str, b: &str) -> (r: String)
    ensures
        r@ == a@ + b@,
{
    let mut r = String::from_str(a);
    r.append(b);
    r
}

/// `a`, `b` and `c` one after the other.
pub fn concat3(a: &str, b: &str, c: &str) -> (r: String)
    ensures
        r@ == a@ + b@ + c@,
{
    let mut r = String::from_str(a);
    r.append(b);
    r.append(c);
    r
}

// ---------------------------------------------------------------------------
// Whitespace and trimming
// ---------------------------------------------------------------------------
/// The characters with the Unicode `White_Space` property, which is what
/// `char::is_whitespace` and `str::trim` go by.
pub open spec fn is_whitespace(c: char) -> bool {
    let v = c as u32;
    ||| 0x09 <= v <= 0x0D
    ||| v == 0x20
    ||| v == 0x85
    ||| v == 0xA0
    ||| v == 0x1680
    ||| 0x2000 <= v <= 0x200A
    ||| v == 0x2028
    ||| v == 0x2029
    ||| v == 0x202F
    ||| v == 0x205F
    ||| v == 0x3000
}

/// Whether `c` is whitespace.
pub fn is_whitespace_char(c: char) -> (r: bool)
    ensures
        r == is_whitespace(c),
{
    let v = c as u32;
    (0x09 <= v && v <= 0x0D) || v == 0x20 || v == 0x85 || v == 0xA0 || v == 0x1680 || (0x2000 <= v
        && v <= 0x200A) || v == 0x2028 || v == 0x2029 || v == 0x202F || v == 0x205F || v == 0x3000
}

/// `s` without its leading whitespace.
pub open spec fn trim_start(s: Seq<char>) -> Seq<char>
    decreases s.len(),
{
    if s.len() > 0 && is_whitespace(s[0]) {
        trim_start(s.drop_first())
    } else {
        s
    }
}

/// `s` without its trailing whitespace (what `str::trim_end` returns).
pub open spec fn trim_end(s: Seq<char>) -> Seq<char>
    decreases s.len(),
{
    if s.len() > 0 && is_whitespace(s.last()) {
        trim_end(s.drop_last())
    } else {
        s
    }
}

/// `s` without leading and trailing whitespace (what `str::trim` returns).
pub open spec fn trim(s: Seq<char>) -> Seq<char> {
    trim_end(trim_start(s))
}

proof fn lemma_trim_start_skip(s: Seq<char>, i: int)
    requires
        0 <= i <= s.len(),
        forall|j: int| 0 <= j < i ==> is_whitespace(#[trigger] s[j]),
    ensures
        trim_start(s) == trim_start(s.subrange(i, s.len() as int)),
    decreases i,
{
    if i > 0 {
        lemma_trim_start_skip(s.drop_first(), i - 1);
        assert(s.drop_first().subrange(i - 1, s.len() - 1) == s.subrange(i, s.len() as int));
    } else {
        assert(s.subrange(0, s.len() as int) == s);
    }
}

proof fn lemma_trim_end_take(s: Seq<char>, e: int)
    requires
        0 <= e <= s.len(),
        forall|j: int| e <= j < s.len() ==> is_whitespace(#[trigger] s[j]),
    ensures
        trim_end(s) == trim_end(s.subrange(0, e)),
    decreases s.len() - e,
{
    if e < s.len() {
        lemma_trim_end_take(s.drop_last(), e);
        assert(s.drop_last().subrange(0, e) == s.subrange(0, e));
    } else {
        assert(s.subrange(0, s.len() as int) == s);
    }
}

/// The bounds `(start, end)` such that `s[start..end]` is `trim(s)`.
pub fn trim_bounds(s: &Vec<char>) -> (r: (usize, usize))
    ensures
        r.0 <= r.1 <= s.len(),
        s@.subrange(r.0 as int, r.1 as int) == trim(s@),
{
    let mut start: usize = 0;
    while start < s.len() && is_whitespace_char(s[start])
        invariant
            start <= s.len(),
            forall|j: int| 0 <= j < start ==> is_whitespace(#[trigger] s@[j]),
        decreases s.len() - start,
    {
        start += 1;
    }
    proof {
        lemma_trim_start_skip(s@, start as int);
    }
    let ghost rest = s@.subrange(start as int, s.len() as int);
    assert(trim_start(rest) == rest);
    let mut end: usize = s.len();
    while end > start && is_whitespace_char(s[end - 1])
        invariant
            start <= end <= s.len(),
            rest == s@.subrange(start as int, s.len() as int),
            forall|j: int| end <= j < s.len() ==> is_whitespace(#[trigger] s@[j]),
        decreases end,
    {
        end -= 1;
    }
    proof {
        let k = end - start;
        assert forall|j: int| k <= j < rest.len() implies is_whitespace(#[trigger] rest[j]) by {
            assert(rest[j] == s@[start + j]);
        }
        lemma_trim_end_take(rest, k);
        assert(rest.subrange(0, k) == s@.subrange(start as int, end as int));
    }
    (start, end)
}

/// A string holding `trim(s)`.
pub fn trimmed_string(s: &Vec<char>) -> (r: String)
    ensures
        r@ == trim(s@),
{
    let (a, b) = trim_bounds(s);
    string_of_range(s, a, b)
}

/// Whether `trim(s)` is empty, that is, whether `s` is whitespace only.
pub fn is_blank(s: &Vec<char>) -> (r: bool)
    ensures
        r == (trim(s@).len() == 0),
{
    let (a, b) = trim_bounds(s);
    a == b
}

/// A string holding `trim_end(s)`.
pub fn trim_end_string(s: &Vec<char>) -> (r: String)
    ensures
        r@ == trim_end(s@),
{
    let mut end: usize = s.len();
    while end > 0 && is_whitespace_char(s[end - 1])
        invariant
            end <= s.len(),
            forall|j: int| end <= j < s.len() ==> is_whitespace(#[trigger] s@[j]),
        decreases end,
    {
        end -= 1;
    }
    proof {
        lemma_trim_end_take(s@, end as int);
        assert(trim_end(s@.subrange(0, end as int)) == s@.subrange(0, end as int));
    }
    string_of_range(s, 0, end)
}

// ---------------------------------------------------------------------------
// Substrings
// ---------------------------------------------------------------------------
/// Whether `needle` occurs in `hay` at position `i`.
pub open spec fn occurs_at(hay: Seq<char>, needle: Seq<char>, i: int) -> bool {
    0 <= i && i + needle.len() <= hay.len() && hay.subrange(i, i + needle.len()) == needle
}

/// Whether `needle` occurs in `hay` (what `str::contains` with a string pattern returns).
pub open spec fn has_substring(hay: Seq<char>, needle: Seq<char>) -> bool {
    exists|i: int| occurs_at(hay, needle, i)
}

fn matches_at(hay: &Vec<char>, needle: &Vec<char>, i: usize) -> (r: bool)
    requires
        i + needle.len() <= hay.len(),
    ensures
        r == occurs_at(hay@, needle@, i as int),
{
    let mut j: usize = 0;
    while j < needle.len()
        invariant
            i + needle.len() <= hay.len(),
            j <= needle.len(),
            forall|k: int| 0 <= k < j ==> hay@[i + k] == needle@[k],
        decreases needle.len() - j,
    {
        if hay[i + j] != needle[j] {
            assert(hay@.subrange(i as int, i + needle.len())[j as int] != needle@[j as int]);
            return false;
        }
        j += 1;
    }
    assert(hay@.subrange(i as int, i + needle.len()) =~= needle@);
    true
}

/// Whether `needle` occurs in `hay`.
pub fn contains_chars(hay: &Vec<char>, needle: &Vec<char>) -> (r: bool)
    ensures
        r == has_substring(hay@, needle@),
{
    if needle.len() > hay.len() {
        return false;
    }
    let last = hay.len() - needle.len();
    let mut i: usize = 0;
    while i <= last
        invariant
            needle.len() <= hay.len(),
            last == hay.len() - needle.len(),
            i <= last + 1,
            forall|k: int| 0 <= k < i ==> !occurs_at(hay@, needle@, k),
        decreases last + 1 - i,
    {
        if matches_at(hay, needle, i) {
            return true;
        }
        if i == last {
            return false;
        }
        i += 1;
    }
    false
}

// ---------------------------------------------------------------------------
// Splitting
// ---------------------------------------------------------------------------
/// Index of the first `c` in `s`, or `s.len()` when there is none.
pub open spec fn find_char(s: Seq<char>, c: char) -> int
    decreases s.len(),
{
    if s.len() == 0 {
        0
    } else if s[0] == c {
        0
    } else {
        1 + find_char(s.drop_first(), c)
    }
}

/// The pieces of `s` between occurrences of `c`, at most `n` of them, the last one
/// holding the rest (what `str::splitn(n, c)` yields, for `n >= 1`).
pub open spec fn splitn_char(s: Seq<char>, n: nat, c: char) -> Seq<Seq<char>>
    decreases n,
{
    let k = find_char(s, c);
    if n <= 1 || k == s.len() {
        seq![s]
    } else {
        seq![s.take(k)] + splitn_char(s.skip(k + 1), (n - 1) as nat, c)
    }
}

/// The pieces of `s` between occurrences of `c` (what `str::split(c)` yields).
pub open spec fn split_char(s: Seq<char>, c: char) -> Seq<Seq<char>> {
    splitn_char(s, s.len() + 1, c)
}

proof fn lemma_find_char(s: Seq<char>, c: char)
    ensures
        0 <= find_char(s, c) <= s.len(),
        forall|j: int| 0 <= j < find_char(s, c) ==> s[j] != c,
        find_char(s, c) < s.len() ==> s[find_char(s, c)] == c,
    decreases s.len(),
{
    if s.len() > 0 && s[0] != c {
        lemma_find_char(s.drop_first(), c);
        assert forall|j: int| 0 <= j < find_char(s, c) implies s[j] != c by {
            if j > 0 {
                assert(s[j] == s.drop_first()[j - 1]);
            }
        }
    }
}

proof fn lemma_find_char_unique(s: Seq<char>, c: char, k: int)
    requires
        0 <= k <= s.len(),
        forall|j: int| 0 <= j < k ==> s[j] != c,
        k < s.len() ==> s[k] == c,
    ensures
        find_char(s, c) == k,
{
    lemma_find_char(s, c);
}

pub proof fn lemma_splitn_len(s: Seq<char>, n: nat, c: char)
    requires
        n >= 1,
    ensures
        1 <= splitn_char(s, n, c).len() <= n,
    decreases n,
{
    lemma_find_char(s, c);
    let k = find_char(s, c);
    if !(n <= 1 || k == s.len()) {
        lemma_splitn_len(s.skip(k + 1), (n - 1) as nat, c);
    }
}

proof fn lemma_split_more_pieces(s: Seq<char>, n: nat, m: nat, c: char)
    requires
        s.len() + 1 <= n,
        s.len() + 1 <= m,
    ensures
        splitn_char(s, n, c) == splitn_char(s, m, c),
    decreases s.len(),
{
    lemma_find_char(s, c);
    let k = find_char(s, c);
    if k < s.len() {
        lemma_split_more_pieces(s.skip(k + 1), (n - 1) as nat, (m - 1) as nat, c);
    }
}

/// The pieces of `s` between occurrences of `c`, at most `n` of them.
pub fn splitn_chars(s: &Vec<char>, n: usize, c: char) -> (r: Vec<Vec<char>>)
    requires
        n >= 1,
    ensures
        r@.map_values(|p: Vec<char>| p@) == splitn_char(s@, n as nat, c),
{
    let mut pieces: Vec<Vec<char>> = Vec::new();
    let mut cur: Vec<char> = Vec::new();
    let mut pos: usize = 0;
    // start of the piece being built
    let mut start: usize = 0;
    assert(s@.skip(0) == s@);
    while pos < s.len()
        invariant
            n >= 1,
            start <= pos <= s.len(),
            pieces.len() < n,
            cur@ == s@.subrange(start as int, pos as int),
            forall|j: int| start <= j < pos ==> s@[j] != c || pieces.len() + 1 == n,
            pieces@.map_values(|p: Vec<char>| p@) + splitn_char(
                s@.skip(start as int),
                (n - pieces.len()) as nat,
                c,
            ) == splitn_char(s@, n as nat, c),
        decreases s.len() - pos,
    {
        let ch = s[pos];
        if ch == c && pieces.len() + 1 < n {
            proof {
                let rest = s@.skip(start as int);
                let k = pos - start;
                assert forall|j: int| 0 <= j < k implies rest[j] != c by {
                    assert(rest[j] == s@[start + j]);
                }
                lemma_find_char_unique(rest, c, k);
                assert(rest.take(k) == cur@);
                assert(rest.skip(k + 1) == s@.skip(pos + 1));
                let m = (n - pieces.len()) as nat;
                assert(splitn_char(rest, m, c) == seq![cur@] + splitn_char(
                    s@.skip(pos + 1),
                    (m - 1) as nat,
                    c,
                ));
            }
            let done = cur;
            let ghost old_pieces = pieces@;
            pieces.push(done);
            proof {
                assert(pieces@.map_values(|p: Vec<char>| p@) == old_pieces.map_values(
                    |p: Vec<char>| p@,
                ).push(done@));
            }
            cur = Vec::new();
            start = pos + 1;
        } else {
            cur.push(ch);
            assert(s@.subrange(start as int, pos + 1) == s@.subrange(start as int, pos as int).push(
                ch,
            ));
        }
        pos += 1;
    }
    proof {
        let rest = s@.skip(start as int);
        let m = (n - pieces.len()) as nat;
        assert(cur@ == rest);
        if m > 1 {
            assert forall|j: int| 0 <= j < rest.len() implies rest[j] != c by {
                assert(rest[j] == s@[start + j]);
            }
            lemma_find_char_unique(rest, c, rest.len() as int);
        }
        assert(splitn_char(rest, m, c) == seq![rest]);
    }
    let ghost old_pieces = pieces@;
    pieces.push(cur);
    proof {
        assert(pieces@.map_values(|p: Vec<char>| p@) == old_pieces.map_values(|p: Vec<char>| p@).push(
            s@.skip(start as int),
        ));
    }
    pieces
}

/// The pieces of `s` between occurrences of `c`.
pub fn split_chars(s: &Vec<char>, c: char) -> (r: Vec<Vec<char>>)
    ensures
        r@.map_values(|p: Vec<char>| p@) == split_char(s@, c),
{
    let mut pieces: Vec<Vec<char>> = Vec::new();
    let mut cur: Vec<char> = Vec::new();
    let mut pos: usize = 0;
    let mut start: usize = 0;
    assert(s@.skip(0) == s@);
    while pos < s.len()
        invariant
            start <= pos <= s.len(),
            cur@ == s@.subrange(start as int, pos as int),
            forall|j: int| start <= j < pos ==> s@[j] != c,
            pieces@.map_values(|p: Vec<char>| p@) + split_char(s@.skip(start as int), c) == split_char(
                s@,
                c,
            ),
        decreases s.len() - pos,
    {
        let ch = s[pos];
        if ch == c {
            proof {
                let rest = s@.skip(start as int);
                let k = pos - start;
                assert forall|j: int| 0 <= j < k implies rest[j] != c by {
                    assert(rest[j] == s@[start + j]);
                }
                lemma_find_char_unique(rest, c, k);
                assert(rest.take(k) == cur@);
                assert(rest.skip(k + 1) == s@.skip(pos + 1));
                lemma_split_more_pieces(
                    s@.skip(pos + 1),
                    rest.len() as nat,
                    (s@.skip(pos + 1).len() + 1) as nat,
                    c,
                );
                assert(split_char(rest, c) == seq![cur@] + split_char(s@.skip(pos + 1), c));
            }
            let done = cur;
            let ghost old_pieces = pieces@;
            pieces.push(done);
            proof {
                assert(pieces@.map_values(|p: Vec<char>| p@) == old_pieces.map_values(
                    |p: Vec<char>| p@,
                ).push(done@));
            }
            cur = Vec::new();
            start = pos + 1;
        } else {
            cur.push(ch);
            assert(s@.subrange(start as int, pos + 1) == s@.subrange(start as int, pos as int).push(
                ch,
            ));
        }
        pos += 1;
    }
    proof {
        let rest = s@.skip(start as int);
        assert(cur@ == rest);
        assert forall|j: int| 0 <= j < rest.len() implies rest[j] != c by {
            assert(rest[j] == s@[start + j]);
        }
        lemma_find_char_unique(rest, c, rest.len() as int);
        assert(split_char(rest, c) == seq![rest]);
    }
    let ghost old_pieces = pieces@;
    pieces.push(cur);
    proof {
        assert(pieces@.map_values(|p: Vec<char>| p@) == old_pieces.map_values(|p: Vec<char>| p@).push(
            s@.skip(start as int),
        ));
    }
    pieces
}

// ---------------------------------------------------------------------------
// Decimal numbers
// ---------------------------------------------------------------------------
/// The character of a decimal digit.
pub open spec fn digit_char(d: nat) -> char {
    (48 + d) as char
}

/// The decimal notation of `n` (what `format!("{n}")` writes).
pub open spec fn decimal(n: nat) -> Seq<char>
    decreases n,
{
    if n < 10 {
        seq![digit_char(n)]
    } else {
        decimal(n / 10).push(digit_char(n % 10))
    }
}

/// The decimal notation of `n`.
pub fn decimal_string(n: usize) -> (r: String)
    ensures
        r@ == decimal(n as nat),
    decreases n,
{
    let d = (n % 10) as u8;
    let ch = (48u8 + d) as char;
    if n < 10 {
        let mut r = String::new();
        push_char(&mut r, ch);
        r
    } else {
        let mut r = decimal_string(n / 10);
        push_char(&mut r, ch);
        r
    }
}

} // verus!
