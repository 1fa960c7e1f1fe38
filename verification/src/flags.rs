//! Composition of flag fragments into one flag string.
//!
//! A fragment is a piece of a command line as somebody wrote it: a flag, a
//! run of flags, the answer of a query tool. Fragments are composed in the
//! order in which they are given. Each is stripped of the white space around
//! it, one that holds nothing else is left out, and neighbours are separated
//! by one space, so that the result never begins or ends with white space
//! and no two fragments run into one another.

use vstd::prelude::*;
use vstd::string::StrSliceExecFns;
use vstd::string::StringExecFns;
use crate::text::{
    ends_with,
    is_space,
    starts_with,
    trim,
    trimmed,
    trimmed_end,
    trimmed_start,
};

verus! {

/// The fragments composed into one flag string.
pub open spec fn composed(fragments: Seq<Seq<char>>) -> Seq<char>
    decreases fragments.len(),
{
    if fragments.len() == 0 {
        Seq::<char>::empty()
    } else {
        let head = composed(fragments.drop_last());
        let piece = trimmed(fragments.last());
        if piece.len() == 0 {
            head
        } else if head.len() == 0 {
            piece
        } else {
            head + " "@ + piece
        }
    }
}

/// Where the fragment at `index` begins in `composed(fragments)`, if it is
/// not left out.
pub open spec fn fragment_offset(fragments: Seq<Seq<char>>, index: int) -> int
    decreases fragments.len(),
{
    if fragments.len() == 0 {
        0
    } else if index == fragments.len() - 1 {
        let head = composed(fragments.drop_last());
        if head.len() == 0 {
            0
        } else {
            (head.len() + 1) as int
        }
    } else {
        fragment_offset(fragments.drop_last(), index)
    }
}

/// A fragment that is not left out stands in the composed string, stripped,
/// at its offset.
pub proof fn lemma_fragment_stands(fragments: Seq<Seq<char>>, index: int)
    requires
        0 <= index < fragments.len(),
        trimmed(fragments[index]).len() > 0,
    ensures
        0 <= fragment_offset(fragments, index),
        fragment_offset(fragments, index) + trimmed(fragments[index]).len() <= composed(
            fragments,
        ).len(),
        composed(fragments).subrange(
            fragment_offset(fragments, index),
            fragment_offset(fragments, index) + trimmed(fragments[index]).len(),
        ) == trimmed(fragments[index]),
    decreases fragments.len(),
{
    reveal_strlit(" ");
    let head = composed(fragments.drop_last());
    let piece = trimmed(fragments.last());
    let whole = composed(fragments);
    if index == fragments.len() - 1 {
        let offset = fragment_offset(fragments, index);
        assert(whole.subrange(offset, offset + piece.len()) =~= piece);
    } else {
        let rest = fragments.drop_last();
        assert(rest[index] == fragments[index]);
        lemma_fragment_stands(rest, index);
        let offset = fragment_offset(rest, index);
        let len = trimmed(fragments[index]).len();
        assert(head.len() > 0);
        if piece.len() > 0 {
            assert(whole.subrange(offset, offset + len) =~= head.subrange(offset, offset + len));
        }
    }
}

/// The first fragment, where it is not left out, begins the composed
/// string.
pub proof fn lemma_first_fragment_first(fragments: Seq<Seq<char>>)
    requires
        fragments.len() > 0,
        trimmed(fragments[0]).len() > 0,
    ensures
        fragment_offset(fragments, 0) == 0,
        starts_with(composed(fragments), trimmed(fragments[0])),
    decreases fragments.len(),
{
    if fragments.len() > 1 {
        let rest = fragments.drop_last();
        assert(rest[0] == fragments[0]);
        lemma_first_fragment_first(rest);
    }
    lemma_fragment_stands(fragments, 0);
}

/// The last fragment, where it is not left out, ends the composed string.
pub proof fn lemma_last_fragment_last(fragments: Seq<Seq<char>>)
    requires
        fragments.len() > 0,
        trimmed(fragments.last()).len() > 0,
    ensures
        ends_with(composed(fragments), trimmed(fragments.last())),
{
    reveal_strlit(" ");
    let head = composed(fragments.drop_last());
    let piece = trimmed(fragments.last());
    let whole = composed(fragments);
    assert(whole.subrange(whole.len() - piece.len(), whole.len() as int) =~= piece);
}

/// Of two fragments that are not left out, the one given first ends in the
/// composed string before the other begins, with a space between them.
pub proof fn lemma_fragments_in_order(fragments: Seq<Seq<char>>, first: int, second: int)
    requires
        0 <= first < second < fragments.len(),
        trimmed(fragments[first]).len() > 0,
        trimmed(fragments[second]).len() > 0,
    ensures
        fragment_offset(fragments, first) + trimmed(fragments[first]).len() < fragment_offset(
            fragments,
            second,
        ),
    decreases fragments.len(),
{
    let rest = fragments.drop_last();
    assert(rest[first] == fragments[first]);
    if second == fragments.len() - 1 {
        lemma_fragment_stands(rest, first);
    } else {
        assert(rest[second] == fragments[second]);
        lemma_fragments_in_order(rest, first, second);
    }
}

/// Whether `flag` can stand as one flag: it holds a character, and no
/// white space.
pub open spec fn is_word(flag: Seq<char>) -> bool {
    flag.len() > 0 && forall|i: int| 0 <= i < flag.len() ==> !is_space(#[trigger] flag[i])
}

/// Whether `flag` stands in `text` at position `at` as a word of its own:
/// with the beginning of the text or white space before it, and the end of
/// the text or white space behind it.
pub open spec fn stands_at(text: Seq<char>, flag: Seq<char>, at: int) -> bool {
    &&& 0 <= at
    &&& at + flag.len() <= text.len()
    &&& text.subrange(at, at + flag.len()) == flag
    &&& (at == 0 || is_space(text[at - 1]))
    &&& (at + flag.len() == text.len() || is_space(text[at + flag.len()]))
}

/// Whether `flag` is present in `text` as a word of its own.
pub open spec fn has_flag(text: Seq<char>, flag: Seq<char>) -> bool {
    exists|at: int| stands_at(text, flag, at)
}

/// Whether `flag` is present in one of the fragments.
pub open spec fn fragments_have(fragments: Seq<Seq<char>>, flag: Seq<char>) -> bool {
    exists|i: int| 0 <= i < fragments.len() && has_flag(#[trigger] fragments[i], flag)
}

proof fn lemma_stands_chars(text: Seq<char>, flag: Seq<char>, at: int, j: int)
    requires
        stands_at(text, flag, at),
        0 <= j < flag.len(),
    ensures
        text[at + j] == flag[j],
{
    assert(text.subrange(at, at + flag.len())[j] == text[at + j]);
}

proof fn lemma_trailing_space(s: Seq<char>, flag: Seq<char>)
    requires
        is_word(flag),
        s.len() > 0,
        is_space(s.last()),
    ensures
        has_flag(s.drop_last(), flag) == has_flag(s, flag),
{
    let r = s.drop_last();
    let n = flag.len() as int;
    if has_flag(r, flag) {
        let at = choose|at: int| stands_at(r, flag, at);
        assert(s.subrange(at, at + n) =~= r.subrange(at, at + n));
        assert(stands_at(s, flag, at));
    }
    if has_flag(s, flag) {
        let at = choose|at: int| stands_at(s, flag, at);
        if at + n == s.len() {
            lemma_stands_chars(s, flag, at, n - 1);
            assert(false);
        }
        assert(r.subrange(at, at + n) =~= s.subrange(at, at + n));
        assert(stands_at(r, flag, at));
    }
}

proof fn lemma_leading_space(s: Seq<char>, flag: Seq<char>)
    requires
        is_word(flag),
        s.len() > 0,
        is_space(s.first()),
    ensures
        has_flag(s.drop_first(), flag) == has_flag(s, flag),
{
    let r = s.drop_first();
    let n = flag.len() as int;
    if has_flag(r, flag) {
        let at = choose|at: int| stands_at(r, flag, at);
        assert(s.subrange(at + 1, at + 1 + n) =~= r.subrange(at, at + n));
        if at > 0 {
            assert(r[at - 1] == s[at]);
        }
        if at + n < r.len() {
            assert(r[at + n] == s[at + 1 + n]);
        }
        assert(stands_at(s, flag, at + 1));
    }
    if has_flag(s, flag) {
        let at = choose|at: int| stands_at(s, flag, at);
        if at == 0 {
            lemma_stands_chars(s, flag, at, 0);
            assert(false);
        }
        assert(r.subrange(at - 1, at - 1 + n) =~= s.subrange(at, at + n));
        if at - 1 > 0 {
            assert(r[at - 2] == s[at - 1]);
        }
        if at + n < s.len() {
            assert(r[at - 1 + n] == s[at + n]);
        }
        assert(stands_at(r, flag, at - 1));
    }
}

/// An empty text holds no flag.
proof fn lemma_nothing_in_nothing(s: Seq<char>, flag: Seq<char>)
    requires
        is_word(flag),
        s.len() == 0,
    ensures
        !has_flag(s, flag),
{
}

proof fn lemma_trimmed_end_has(s: Seq<char>, flag: Seq<char>)
    requires
        is_word(flag),
    ensures
        has_flag(trimmed_end(s), flag) == has_flag(s, flag),
    decreases s.len(),
{
    if s.len() > 0 && is_space(s.last()) {
        lemma_trailing_space(s, flag);
        lemma_trimmed_end_has(s.drop_last(), flag);
    }
}

proof fn lemma_trimmed_start_has(s: Seq<char>, flag: Seq<char>)
    requires
        is_word(flag),
    ensures
        has_flag(trimmed_start(s), flag) == has_flag(s, flag),
    decreases s.len(),
{
    if s.len() > 0 && is_space(s.first()) {
        lemma_leading_space(s, flag);
        lemma_trimmed_start_has(s.drop_first(), flag);
    }
}

/// Stripping a text of the white space around it neither adds a flag nor
/// takes one away.
pub proof fn lemma_trimmed_has(s: Seq<char>, flag: Seq<char>)
    requires
        is_word(flag),
    ensures
        has_flag(trimmed(s), flag) == has_flag(s, flag),
{
    lemma_trimmed_start_has(s, flag);
    lemma_trimmed_end_has(trimmed_start(s), flag);
}

/// Whether `t` is `a`, one character of white space, and `b`.
spec fn spaced(a: Seq<char>, b: Seq<char>, t: Seq<char>) -> bool {
    &&& t.len() == a.len() + 1 + b.len()
    &&& is_space(t[a.len() as int])
    &&& forall|i: int| 0 <= i < a.len() ==> #[trigger] t[i] == a[i]
    &&& forall|i: int| 0 <= i < b.len() ==> #[trigger] t[a.len() + 1 + i] == b[i]
}

proof fn lemma_spaced_left(a: Seq<char>, b: Seq<char>, t: Seq<char>, flag: Seq<char>, at: int)
    requires
        spaced(a, b, t),
        stands_at(a, flag, at),
    ensures
        stands_at(t, flag, at),
{
    let n = flag.len() as int;
    assert(t.subrange(at, at + n) =~= a.subrange(at, at + n));
    if at > 0 {
        assert(t[at - 1] == a[at - 1]);
    }
    if at + n < a.len() {
        assert(t[at + n] == a[at + n]);
    }
}

proof fn lemma_spaced_right(a: Seq<char>, b: Seq<char>, t: Seq<char>, flag: Seq<char>, at: int)
    requires
        spaced(a, b, t),
        stands_at(b, flag, at),
    ensures
        stands_at(t, flag, a.len() + 1 + at),
{
    let n = flag.len() as int;
    let gap = a.len() as int;
    let in_whole = t.subrange(gap + 1 + at, gap + 1 + at + n);
    let in_part = b.subrange(at, at + n);
    assert forall|j: int| 0 <= j < n implies #[trigger] in_whole[j] == in_part[j] by {
        assert(t[gap + 1 + (at + j)] == b[at + j]);
    }
    assert(in_whole =~= in_part);
    if at > 0 {
        assert(t[gap + 1 + (at - 1)] == b[at - 1]);
    }
    if at + n < b.len() {
        assert(t[gap + 1 + (at + n)] == b[at + n]);
    }
}

proof fn lemma_spaced_back(a: Seq<char>, b: Seq<char>, t: Seq<char>, flag: Seq<char>, at: int)
    requires
        is_word(flag),
        spaced(a, b, t),
        stands_at(t, flag, at),
    ensures
        at + flag.len() <= a.len() ==> stands_at(a, flag, at),
        at + flag.len() > a.len() ==> at > a.len() && stands_at(b, flag, at - a.len() - 1),
{
    let n = flag.len() as int;
    let gap = a.len() as int;
    if at <= gap && gap < at + n {
        lemma_stands_chars(t, flag, at, gap - at);
        assert(false);
    }
    if at + n <= gap {
        assert(a.subrange(at, at + n) =~= t.subrange(at, at + n));
        if at > 0 {
            assert(t[at - 1] == a[at - 1]);
        }
        if at + n < gap {
            assert(t[at + n] == a[at + n]);
        }
    } else {
        let k = at - gap - 1;
        let in_whole = t.subrange(at, at + n);
        let in_part = b.subrange(k, k + n);
        assert forall|j: int| 0 <= j < n implies #[trigger] in_part[j] == in_whole[j] by {
            assert(t[gap + 1 + (k + j)] == b[k + j]);
        }
        assert(in_part =~= in_whole);
        if k > 0 {
            assert(t[gap + 1 + (k - 1)] == b[k - 1]);
        }
        if k + n < b.len() {
            assert(t[gap + 1 + (k + n)] == b[k + n]);
        }
    }
}

/// Two texts with a space between them hold the flags of both, and no
/// other.
pub proof fn lemma_spaced_has(a: Seq<char>, b: Seq<char>, flag: Seq<char>)
    requires
        is_word(flag),
    ensures
        has_flag(a + " "@ + b, flag) == (has_flag(a, flag) || has_flag(b, flag)),
{
    reveal_strlit(" ");
    let t = a + " "@ + b;
    assert(spaced(a, b, t)) by {
        assert(t[a.len() as int] == ' ');
    }
    if has_flag(a, flag) {
        let at = choose|at: int| stands_at(a, flag, at);
        lemma_spaced_left(a, b, t, flag, at);
    }
    if has_flag(b, flag) {
        let at = choose|at: int| stands_at(b, flag, at);
        lemma_spaced_right(a, b, t, flag, at);
    }
    if has_flag(t, flag) {
        let at = choose|at: int| stands_at(t, flag, at);
        lemma_spaced_back(a, b, t, flag, at);
    }
}

/// Composition neither adds a flag nor takes one away: a flag is present in
/// the composed string exactly when it is present in one of the fragments.
pub proof fn lemma_composed_has(fragments: Seq<Seq<char>>, flag: Seq<char>)
    requires
        is_word(flag),
    ensures
        has_flag(composed(fragments), flag) == fragments_have(fragments, flag),
    decreases fragments.len(),
{
    if fragments.len() == 0 {
        lemma_nothing_in_nothing(composed(fragments), flag);
    } else {
        let rest = fragments.drop_last();
        let head = composed(rest);
        let piece = trimmed(fragments.last());
        lemma_composed_has(rest, flag);
        lemma_trimmed_has(fragments.last(), flag);
        if piece.len() == 0 {
            lemma_nothing_in_nothing(piece, flag);
        } else if head.len() == 0 {
            lemma_nothing_in_nothing(head, flag);
        } else {
            lemma_spaced_has(head, piece, flag);
        }
        if fragments_have(rest, flag) {
            let i = choose|i: int| 0 <= i < rest.len() && has_flag(#[trigger] rest[i], flag);
            assert(fragments[i] == rest[i]);
        }
        if fragments_have(fragments, flag) {
            let i = choose|i: int|
                0 <= i < fragments.len() && has_flag(#[trigger] fragments[i], flag);
            if i < rest.len() {
                assert(rest[i] == fragments[i]);
            }
        }
        if has_flag(fragments.last(), flag) {
            assert(has_flag(fragments[fragments.len() - 1], flag));
        }
    }
}

/// A text that is one word holds that word as its only flag.
pub proof fn lemma_word_has(word: Seq<char>, flag: Seq<char>)
    requires
        is_word(word),
        is_word(flag),
    ensures
        has_flag(word, flag) == (word == flag),
{
    if has_flag(word, flag) {
        let at = choose|at: int| stands_at(word, flag, at);
        assert(at == 0);
        assert(flag.len() == word.len());
        assert(word.subrange(0, word.len() as int) =~= word);
    }
    if word == flag {
        assert(word.subrange(0, word.len() as int) =~= word);
        assert(stands_at(word, flag, 0));
    }
}

/// Whether the characters of `s` from position `i` on are no white space.
pub open spec fn plain_from(s: Seq<char>, i: int) -> bool
    decreases s.len() - i,
{
    if i >= s.len() {
        true
    } else {
        !is_space(s[i]) && plain_from(s, i + 1)
    }
}

/// A text that holds a character and whose characters are no white space
/// is a word.
pub proof fn lemma_plain_is_word(s: Seq<char>, i: int)
    requires
        0 <= i,
        plain_from(s, i),
    ensures
        forall|j: int| i <= j < s.len() ==> !is_space(#[trigger] s[j]),
    decreases s.len() - i,
{
    if i < s.len() {
        lemma_plain_is_word(s, i + 1);
    }
}

/// The words of a text, in order: its longest runs of characters that are
/// no white space.
pub open spec fn words(s: Seq<char>) -> Seq<Seq<char>>
    decreases s.len(),
{
    if s.len() == 0 {
        Seq::<Seq<char>>::empty()
    } else {
        let head = words(s.drop_last());
        if is_space(s.last()) {
            head
        } else if s.len() >= 2 && !is_space(s[s.len() - 2]) {
            head.drop_last().push(head.last().push(s.last()))
        } else {
            head.push(seq![s.last()])
        }
    }
}

/// The words of all fragments, in the order of the fragments.
pub open spec fn fragment_words(fragments: Seq<Seq<char>>) -> Seq<Seq<char>>
    decreases fragments.len(),
{
    if fragments.len() == 0 {
        Seq::<Seq<char>>::empty()
    } else {
        fragment_words(fragments.drop_last()) + words(fragments.last())
    }
}

proof fn lemma_words_some(s: Seq<char>)
    requires
        s.len() > 0,
        !is_space(s.last()),
    ensures
        words(s).len() > 0,
{
}

/// Behind a text that is empty or ends in white space, the words of what
/// follows begin anew.
proof fn lemma_words_behind_space(a: Seq<char>, b: Seq<char>)
    requires
        a.len() > 0 ==> is_space(a.last()),
    ensures
        words(a + b) == words(a) + words(b),
    decreases b.len(),
{
    let whole = a + b;
    if b.len() == 0 {
        assert(whole =~= a);
        assert(words(a) + words(b) =~= words(a));
    } else {
        let rest = b.drop_last();
        let c = b.last();
        assert(whole.drop_last() =~= a + rest);
        assert(whole.last() == c);
        lemma_words_behind_space(a, rest);
        let head = words(a) + words(rest);
        if is_space(c) {
        } else if rest.len() == 0 {
            assert(words(rest) =~= Seq::<Seq<char>>::empty());
            if a.len() > 0 {
                assert(whole[whole.len() - 2] == a.last());
            }
            assert(words(whole) == head.push(seq![c]));
            assert(head.push(seq![c]) =~= words(a) + words(b));
        } else {
            assert(whole[whole.len() - 2] == rest.last());
            assert(b[b.len() - 2] == rest.last());
            if !is_space(rest.last()) {
                lemma_words_some(rest);
                assert(head.last() == words(rest).last());
                assert(head.drop_last() =~= words(a) + words(rest).drop_last());
                assert(words(whole) =~= words(a) + words(b));
            } else {
                assert(words(whole) =~= words(a) + words(b));
            }
        }
    }
}

/// White space at the end of a text changes none of its words.
pub proof fn lemma_words_trimmed_end(s: Seq<char>)
    ensures
        words(trimmed_end(s)) == words(s),
    decreases s.len(),
{
    if s.len() > 0 && is_space(s.last()) {
        lemma_words_trimmed_end(s.drop_last());
    }
}

proof fn lemma_words_trimmed_start(s: Seq<char>)
    ensures
        words(trimmed_start(s)) == words(s),
    decreases s.len(),
{
    if s.len() > 0 && is_space(s.first()) {
        let first = seq![s.first()];
        assert(first.last() == s.first());
        assert(first.drop_last().len() == 0);
        assert(words(first.drop_last()) =~= Seq::<Seq<char>>::empty());
        assert(words(first) == words(first.drop_last()));
        assert(s =~= first + s.drop_first());
        lemma_words_behind_space(first, s.drop_first());
        assert(words(first) + words(s.drop_first()) =~= words(s.drop_first()));
        lemma_words_trimmed_start(s.drop_first());
    }
}

/// White space around a text changes none of its words.
pub proof fn lemma_words_trimmed(s: Seq<char>)
    ensures
        words(trimmed(s)) == words(s),
{
    lemma_words_trimmed_start(s);
    lemma_words_trimmed_end(trimmed_start(s));
}

/// Composition keeps the words: the words of the composed string are the
/// words of the fragments, in the order of the fragments. None is dropped,
/// none added, none is given twice, and no two run into one.
pub proof fn lemma_composed_words(fragments: Seq<Seq<char>>)
    ensures
        words(composed(fragments)) == fragment_words(fragments),
    decreases fragments.len(),
{
    if fragments.len() > 0 {
        reveal_strlit(" ");
        let head = composed(fragments.drop_last());
        let piece = trimmed(fragments.last());
        lemma_composed_words(fragments.drop_last());
        lemma_words_trimmed(fragments.last());
        if piece.len() == 0 {
            assert(fragment_words(fragments) =~= fragment_words(fragments.drop_last()));
        } else if head.len() == 0 {
            assert(fragment_words(fragments) =~= words(fragments.last()));
        } else {
            let spaced = head + " "@;
            assert(spaced.last() == ' ');
            assert(spaced.drop_last() =~= head);
            assert(words(spaced) == words(head));
            lemma_words_behind_space(spaced, piece);
        }
    }
}

/// Composes the fragments into one flag string.
pub fn compose(fragments: &Vec<String>) -> (r: String)
    ensures
        r@ == composed(fragments.deep_view()),
{
    let mut out = String::new();
    let mut empty: bool = true;
    let mut i: usize = 0;
    proof {
        assert(fragments.deep_view().take(0) =~= Seq::<Seq<char>>::empty());
    }
    while i < fragments.len()
        invariant
            i <= fragments.len(),
            out@ == composed(fragments.deep_view().take(i as int)),
            empty == (out@.len() == 0),
        decreases fragments.len() - i,
    {
        proof {
            let before = fragments.deep_view().take(i as int);
            let after = fragments.deep_view().take(i + 1);
            assert(after.drop_last() =~= before);
            assert(after.last() == fragments[i as int]@);
        }
        let piece = trim(fragments[i].as_str());
        if piece.unicode_len() > 0 {
            if empty {
                proof {
                    assert(out@ + piece@ =~= piece@);
                }
            } else {
                out.append(" ");
            }
            out.append(piece);
            empty = false;
        }
        i = i + 1;
    }
    proof {
        assert(fragments.deep_view().take(i as int) =~= fragments.deep_view());
    }
    out
}

} // verus!
