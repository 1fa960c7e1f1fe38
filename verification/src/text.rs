//! Text primitives over sequences of characters, each with an executable
//! counterpart on `&str` whose result is tied to the mathematical definition.

use vstd::prelude::*;
use vstd::string::StrSliceExecFns;
use vstd::string::StringExecFns;

verus! {

/// Whether `c` carries the Unicode property `White_Space`.
pub open spec fn is_space(c: char) -> bool {
    ||| '\u{0009}' <= c <= '\u{000D}'
    ||| c == ' '
    ||| c == '\u{0085}'
    ||| c == '\u{00A0}'
    ||| c == '\u{1680}'
    ||| '\u{2000}' <= c <= '\u{200A}'
    ||| c == '\u{2028}'
    ||| c == '\u{2029}'
    ||| c == '\u{202F}'
    ||| c == '\u{205F}'
    ||| c == '\u{3000}'
}

/// `s` without its trailing white space.
pub open spec fn trimmed_end(s: Seq<char>) -> Seq<char>
    decreases s.len(),
{
    if s.len() > 0 && is_space(s.last()) {
        trimmed_end(s.drop_last())
    } else {
        s
    }
}

/// `s` without its leading white space.
pub open spec fn trimmed_start(s: Seq<char>) -> Seq<char>
    decreases s.len(),
{
    if s.len() > 0 && is_space(s.first()) {
        trimmed_start(s.drop_first())
    } else {
        s
    }
}

/// `s` without leading and trailing white space.
pub open spec fn trimmed(s: Seq<char>) -> Seq<char> {
    trimmed_end(trimmed_start(s))
}

/// The pieces of `s` between occurrences of `sep`. There is always at least
/// one piece; two adjacent separators enclose an empty piece.
pub open spec fn split(s: Seq<char>, sep: char) -> Seq<Seq<char>>
    decreases s.len(),
{
    if s.len() == 0 {
        seq![Seq::<char>::empty()]
    } else {
        let head = split(s.drop_last(), sep);
        if s.last() == sep {
            head.push(Seq::<char>::empty())
        } else {
            head.drop_last().push(head.last().push(s.last()))
        }
    }
}

/// The parts in order, with `sep` between neighbours.
pub open spec fn joined(parts: Seq<Seq<char>>, sep: Seq<char>) -> Seq<char>
    decreases parts.len(),
{
    if parts.len() == 0 {
        Seq::<char>::empty()
    } else if parts.len() == 1 {
        parts[0]
    } else {
        joined(parts.drop_last(), sep) + sep + parts.last()
    }
}

/// The decimal digit `d` as text.
pub open spec fn digit(d: nat) -> Seq<char> {
    if d == 0 {
        "0"@
    } else if d == 1 {
        "1"@
    } else if d == 2 {
        "2"@
    } else if d == 3 {
        "3"@
    } else if d == 4 {
        "4"@
    } else if d == 5 {
        "5"@
    } else if d == 6 {
        "6"@
    } else if d == 7 {
        "7"@
    } else if d == 8 {
        "8"@
    } else {
        "9"@
    }
}

/// `n` in decimal notation, without leading zeros.
pub open spec fn decimal(n: nat) -> Seq<char>
    decreases n,
{
    if n < 10 {
        digit(n)
    } else {
        decimal(n / 10) + digit(n % 10)
    }
}

/// Where the last `c` of `s` stands, or -1 when `s` has none.
pub open spec fn last_index_of(s: Seq<char>, c: char) -> int
    decreases s.len(),
{
    if s.len() == 0 {
        -1
    } else if s.last() == c {
        s.len() - 1
    } else {
        last_index_of(s.drop_last(), c)
    }
}

/// Whether `s` begins with `prefix`.
pub open spec fn starts_with(s: Seq<char>, prefix: Seq<char>) -> bool {
    prefix.len() <= s.len() && s.subrange(0, prefix.len() as int) == prefix
}

/// Whether `s` ends with `suffix`.
pub open spec fn ends_with(s: Seq<char>, suffix: Seq<char>) -> bool {
    suffix.len() <= s.len() && s.subrange(s.len() - suffix.len(), s.len() as int) == suffix
}

/// Stripping the end of `s` leaves what stands before `end`, where
/// everything from `end` on is white space and what stands just before it
/// is not.
pub proof fn lemma_trimmed_end(s: Seq<char>, end: int)
    requires
        0 <= end <= s.len(),
        forall|j: int| end <= j < s.len() ==> is_space(s[j]),
        end > 0 ==> !is_space(s[end - 1]),
    ensures
        trimmed_end(s) == s.subrange(0, end),
    decreases s.len(),
{
    if end == s.len() {
        assert(s.subrange(0, end) =~= s);
    } else {
        lemma_trimmed_end(s.drop_last(), end);
        assert(s.drop_last().subrange(0, end) =~= s.subrange(0, end));
    }
}

/// Stripping the beginning of `s` leaves what stands from `start` on, where
/// everything before `start` is white space and what stands at it is not.
pub proof fn lemma_trimmed_start(s: Seq<char>, start: int)
    requires
        0 <= start <= s.len(),
        forall|j: int| 0 <= j < start ==> is_space(s[j]),
        start < s.len() ==> !is_space(s[start]),
    ensures
        trimmed_start(s) == s.subrange(start, s.len() as int),
    decreases s.len(),
{
    if start == 0 {
        assert(s.subrange(0, s.len() as int) =~= s);
    } else {
        let rest = s.drop_first();
        assert forall|j: int| 0 <= j < start - 1 implies is_space(rest[j]) by {
            assert(rest[j] == s[j + 1]);
        }
        lemma_trimmed_start(rest, start - 1);
        assert(rest.subrange(start - 1, rest.len() as int) =~= s.subrange(start, s.len() as int));
    }
}

/// Stripping the beginning of a text that ends in white space leaves
/// nothing, or what it leaves of the text before that white space with the
/// white space behind it.
proof fn lemma_trimmed_start_pushed(s: Seq<char>, c: char)
    requires
        is_space(c),
    ensures
        trimmed_start(s.push(c)) == if trimmed_start(s).len() == 0 {
            Seq::<char>::empty()
        } else {
            trimmed_start(s).push(c)
        },
    decreases s.len(),
{
    let whole = s.push(c);
    if s.len() == 0 {
        let rest = whole.drop_first();
        assert(whole.first() == c);
        assert(rest.len() == 0);
        assert(trimmed_start(rest) == rest);
        assert(trimmed_start(whole) == trimmed_start(rest));
        assert(rest =~= Seq::<char>::empty());
    } else if is_space(s.first()) {
        assert(whole.first() == s.first());
        assert(whole.drop_first() =~= s.drop_first().push(c));
        lemma_trimmed_start_pushed(s.drop_first(), c);
    } else {
        assert(whole.first() == s.first());
    }
}

/// Stripping a text gives the same whether or not its end was stripped
/// before.
pub proof fn lemma_trimmed_absorbs_end(s: Seq<char>)
    ensures
        trimmed(trimmed_end(s)) == trimmed(s),
    decreases s.len(),
{
    if s.len() > 0 && is_space(s.last()) {
        let rest = s.drop_last();
        lemma_trimmed_absorbs_end(rest);
        assert(s =~= rest.push(s.last()));
        lemma_trimmed_start_pushed(rest, s.last());
        if trimmed_start(rest).len() > 0 {
            assert(trimmed_start(rest).push(s.last()).drop_last() =~= trimmed_start(rest));
        }
    }
}

/// The last `c` of `s` stands in `s`, and no `c` stands behind it.
pub proof fn lemma_last_index_of(s: Seq<char>, c: char)
    ensures
        -1 <= last_index_of(s, c) < s.len(),
        last_index_of(s, c) >= 0 ==> s[last_index_of(s, c)] == c,
        forall|j: int| last_index_of(s, c) < j < s.len() ==> s[j] != c,
    decreases s.len(),
{
    if s.len() > 0 && s.last() != c {
        let rest = s.drop_last();
        lemma_last_index_of(rest, c);
        assert forall|j: int| last_index_of(s, c) < j < s.len() implies s[j] != c by {
            if j < rest.len() {
                assert(rest[j] == s[j]);
            }
        }
    }
}

/// Whether `c` is white space.
pub fn is_space_char(c: char) -> (r: bool)
    ensures
        r == is_space(c),
{
    ('\u{0009}' <= c && c <= '\u{000D}') || c == ' ' || c == '\u{0085}' || c == '\u{00A0}' || c
        == '\u{1680}' || ('\u{2000}' <= c && c <= '\u{200A}') || c == '\u{2028}' || c
        == '\u{2029}' || c == '\u{202F}' || c == '\u{205F}' || c == '\u{3000}'
}

/// Whether two texts hold the same characters.
pub fn same_text(a: &str, b: &str) -> (r: bool)
    ensures
        r == (a@ == b@),
{
    let left = a.to_owned();
    let right = b.to_owned();
    left == right
}

/// `s` without its trailing white space.
pub fn trim_end(s: &str) -> (r: &str)
    ensures
        r@ == trimmed_end(s@),
{
    let n: usize = s.unicode_len();
    let mut end: usize = 0;
    let mut idx: usize = 0;
    for c in it: s.chars()
        invariant
            idx == it.index(),
            it.seq() == s@,
            n == s@.len(),
            end <= idx,
            forall|j: int| end <= j < idx ==> is_space(s@[j]),
            end > 0 ==> !is_space(s@[end - 1]),
    {
        idx = idx + 1;
        if !is_space_char(c) {
            end = idx;
        }
    }
    proof {
        lemma_trimmed_end(s@, end as int);
    }
    s.substring_char(0, end)
}

/// `s` without its leading white space.
pub fn trim_start(s: &str) -> (r: &str)
    ensures
        r@ == trimmed_start(s@),
{
    let n: usize = s.unicode_len();
    let mut start: usize = 0;
    let mut inside: bool = false;
    let mut idx: usize = 0;
    for c in it: s.chars()
        invariant
            idx == it.index(),
            it.seq() == s@,
            n == s@.len(),
            start <= idx,
            !inside ==> start == idx,
            inside ==> start < idx && !is_space(s@[start as int]),
            forall|j: int| 0 <= j < start ==> is_space(s@[j]),
    {
        idx = idx + 1;
        if !inside {
            if is_space_char(c) {
                start = idx;
            } else {
                inside = true;
            }
        }
    }
    proof {
        lemma_trimmed_start(s@, start as int);
    }
    s.substring_char(start, n)
}

/// `s` without leading and trailing white space.
pub fn trim(s: &str) -> (r: &str)
    ensures
        r@ == trimmed(s@),
{
    trim_end(trim_start(s))
}

/// The position of the last `c` in `s`.
pub fn find_last(s: &str, c: char) -> (r: Option<usize>)
    ensures
        match r {
            Some(i) => i == last_index_of(s@, c),
            None => last_index_of(s@, c) == -1,
        },
{
    let n: usize = s.unicode_len();
    let mut found: Option<usize> = None;
    let mut idx: usize = 0;
    for x in it: s.chars()
        invariant
            idx == it.index(),
            it.seq() == s@,
            n == s@.len(),
            match found {
                Some(i) => i == last_index_of(s@.subrange(0, idx as int), c),
                None => last_index_of(s@.subrange(0, idx as int), c) == -1,
            },
    {
        proof {
            let before = s@.subrange(0, idx as int);
            let after = s@.subrange(0, idx + 1);
            assert(after.drop_last() =~= before);
            assert(after.last() == x);
        }
        if x == c {
            found = Some(idx);
        }
        idx = idx + 1;
    }
    proof {
        assert(s@.subrange(0, idx as int) =~= s@);
    }
    found
}

/// Whether `s` begins with `prefix`.
pub fn has_prefix(s: &str, prefix: &str) -> (r: bool)
    ensures
        r == starts_with(s@, prefix@),
{
    let n: usize = s.unicode_len();
    let m: usize = prefix.unicode_len();
    if m > n {
        return false;
    }
    same_text(s.substring_char(0, m), prefix)
}

/// Whether `s` ends with `suffix`.
pub fn has_suffix(s: &str, suffix: &str) -> (r: bool)
    ensures
        r == ends_with(s@, suffix@),
{
    let n: usize = s.unicode_len();
    let m: usize = suffix.unicode_len();
    if m > n {
        return false;
    }
    same_text(s.substring_char(n - m, n), suffix)
}

/// The text behind `prefix`, if `s` begins with it.
pub fn strip_prefix<'a>(s: &'a str, prefix: &str) -> (r: Option<&'a str>)
    ensures
        match r {
            Some(rest) => starts_with(s@, prefix@) && rest@ == s@.subrange(
                prefix@.len() as int,
                s@.len() as int,
            ),
            None => !starts_with(s@, prefix@),
        },
{
    if has_prefix(s, prefix) {
        let n: usize = s.unicode_len();
        let m: usize = prefix.unicode_len();
        Some(s.substring_char(m, n))
    } else {
        None
    }
}

/// The pieces of `s` between occurrences of `sep`.
pub fn split_on(s: &str, sep: char) -> (r: Vec<String>)
    ensures
        r.deep_view() == split(s@, sep),
{
    let n: usize = s.unicode_len();
    let mut pieces: Vec<String> = Vec::new();
    let mut start: usize = 0;
    let mut idx: usize = 0;
    proof {
        assert(s@.subrange(0, 0) =~= Seq::<char>::empty());
        assert(pieces.deep_view().push(s@.subrange(0, 0)) =~= split(s@.subrange(0, 0), sep));
    }
    for c in it: s.chars()
        invariant
            idx == it.index(),
            it.seq() == s@,
            n == s@.len(),
            start <= idx,
            pieces.deep_view().push(s@.subrange(start as int, idx as int)) == split(
                s@.subrange(0, idx as int),
                sep,
            ),
    {
        proof {
            let before = s@.subrange(0, idx as int);
            let after = s@.subrange(0, idx + 1);
            assert(after.drop_last() =~= before);
            assert(after.last() == c);
            let head = split(before, sep);
            assert(head.last() == s@.subrange(start as int, idx as int));
            assert(head.drop_last() =~= pieces.deep_view());
        }
        if c == sep {
            let piece = s.substring_char(start, idx);
            let ghost old_pieces = pieces.deep_view();
            pieces.push(piece.to_owned());
            start = idx + 1;
            proof {
                assert(pieces.deep_view() =~= old_pieces.push(piece@));
                assert(s@.subrange(start as int, idx + 1) =~= Seq::<char>::empty());
            }
        } else {
            proof {
                assert(s@.subrange(start as int, idx + 1) =~= s@.subrange(
                    start as int,
                    idx as int,
                ).push(c));
            }
        }
        idx = idx + 1;
    }
    let piece = s.substring_char(start, n);
    let ghost old_pieces = pieces.deep_view();
    pieces.push(piece.to_owned());
    proof {
        assert(pieces.deep_view() =~= old_pieces.push(piece@));
        assert(s@.subrange(0, n as int) =~= s@);
    }
    pieces
}

/// The parts in order, with `sep` between neighbours.
pub fn join(parts: &Vec<String>, sep: &str) -> (r: String)
    ensures
        r@ == joined(parts.deep_view(), sep@),
{
    let mut out = String::new();
    let mut i: usize = 0;
    proof {
        assert(parts.deep_view().take(0) =~= Seq::<Seq<char>>::empty());
    }
    while i < parts.len()
        invariant
            i <= parts.len(),
            out@ == joined(parts.deep_view().take(i as int), sep@),
        decreases parts.len() - i,
    {
        proof {
            let before = parts.deep_view().take(i as int);
            let after = parts.deep_view().take(i + 1);
            assert(after.drop_last() =~= before);
            assert(after.last() == parts[i as int]@);
            if i == 0 {
                assert(out@ + parts[i as int]@ =~= parts[i as int]@);
            }
        }
        if i > 0 {
            out.append(sep);
        }
        out.append(parts[i].as_str());
        i = i + 1;
    }
    proof {
        assert(parts.deep_view().take(i as int) =~= parts.deep_view());
    }
    out
}

fn digit_text(d: u64) -> (r: &'static str)
    requires
        d < 10,
    ensures
        r@ == digit(d as nat),
{
    if d == 0 {
        "0"
    } else if d == 1 {
        "1"
    } else if d == 2 {
        "2"
    } else if d == 3 {
        "3"
    } else if d == 4 {
        "4"
    } else if d == 5 {
        "5"
    } else if d == 6 {
        "6"
    } else if d == 7 {
        "7"
    } else if d == 8 {
        "8"
    } else {
        "9"
    }
}

/// `n` in decimal notation, without leading zeros.
pub fn decimal_text(n: u64) -> (r: String)
    ensures
        r@ == decimal(n as nat),
    decreases n,
{
    if n < 10 {
        digit_text(n).to_owned()
    } else {
        let mut out = decimal_text(n / 10);
        out.append(digit_text(n % 10));
        out
    }
}

} // verus!
