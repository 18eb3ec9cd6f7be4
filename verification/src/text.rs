//! Character sequences: white space, words, joining, padding and searching.

use vstd::prelude::*;
use vstd::string::*;

verus! {

/// The characters that separate words: those with the Unicode property `White_Space`.
pub open spec fn is_space(c: char) -> bool {
    ||| '\u{9}' <= c <= '\u{d}'
    ||| c == ' '
    ||| c == '\u{85}'
    ||| c == '\u{a0}'
    ||| c == '\u{1680}'
    ||| '\u{2000}' <= c <= '\u{200a}'
    ||| c == '\u{2028}'
    ||| c == '\u{2029}'
    ||| c == '\u{202f}'
    ||| c == '\u{205f}'
    ||| c == '\u{3000}'
}

/// The words of `s`: its maximal runs of characters that are not white space, in order.
///
/// Read from the right: a space adds nothing, a character after a space (or at
/// the start) opens a word, any other character extends the last word.
pub open spec fn tokens(s: Seq<char>) -> Seq<Seq<char>>
    decreases s.len(),
{
    if s.len() == 0 {
        Seq::empty()
    } else {
        let before = tokens(s.drop_last());
        if is_space(s.last()) {
            before
        } else if s.len() == 1 || is_space(s[s.len() - 2]) {
            before.push(seq![s.last()])
        } else {
            before.drop_last().push(before.last().push(s.last()))
        }
    }
}

/// The words joined by single spaces.
pub open spec fn join(words: Seq<Seq<char>>) -> Seq<char>
    decreases words.len(),
{
    if words.len() == 0 {
        Seq::empty()
    } else if words.len() == 1 {
        words[0]
    } else {
        join(words.drop_last()) + seq![' '] + words.last()
    }
}

/// True when `word` is not empty and holds no white space.
pub open spec fn is_word(word: Seq<char>) -> bool {
    word.len() > 0 && forall|i: int| 0 <= i < word.len() ==> !is_space(#[trigger] word[i])
}

/// True when all white space in `text` is single spaces, each between two other characters.
pub open spec fn single_spaced(text: Seq<char>) -> bool {
    forall|i: int|
        0 <= i < text.len() && is_space(#[trigger] text[i]) ==> {
            &&& text[i] == ' '
            &&& 0 < i < text.len() - 1
            &&& !is_space(text[i - 1])
            &&& !is_space(text[i + 1])
        }
}

/// True when `needle` stands in `hay` at position `i`.
pub open spec fn occurs_at(hay: Seq<char>, needle: Seq<char>, i: int) -> bool {
    0 <= i && i + needle.len() <= hay.len() && hay.subrange(i, i + needle.len()) == needle
}

/// True when `needle` stands somewhere in `hay`.
pub open spec fn contains(hay: Seq<char>, needle: Seq<char>) -> bool {
    exists|i: int| occurs_at(hay, needle, i)
}

/// The text `s`, followed by as many spaces as it takes to reach `width` characters.
pub open spec fn padded(s: Seq<char>, width: nat) -> Seq<char> {
    if s.len() >= width {
        s
    } else {
        s + Seq::new((width - s.len()) as nat, |i: int| ' ')
    }
}

/// What each of the string slices holds.
pub open spec fn views(words: Seq<&str>) -> Seq<Seq<char>> {
    words.map_values(|w: &str| w@)
}

/// A text of white space alone has no words.
pub proof fn lemma_tokens_of_blank(s: Seq<char>)
    requires
        forall|i: int| 0 <= i < s.len() ==> is_space(#[trigger] s[i]),
    ensures
        tokens(s) == Seq::<Seq<char>>::empty(),
    decreases s.len(),
{
    if s.len() > 0 {
        lemma_tokens_of_blank(s.drop_last());
    }
}

/// White space after a text adds no word.
pub proof fn lemma_tokens_ignore_tail(s: Seq<char>, tail: Seq<char>)
    requires
        forall|i: int| 0 <= i < tail.len() ==> is_space(#[trigger] tail[i]),
    ensures
        tokens(s + tail) == tokens(s),
    decreases tail.len(),
{
    if tail.len() > 0 {
        assert((s + tail).drop_last() =~= s + tail.drop_last());
        lemma_tokens_ignore_tail(s, tail.drop_last());
    }
}

/// White space before a text adds no word.
pub proof fn lemma_tokens_ignore_head(head: Seq<char>, s: Seq<char>)
    requires
        forall|i: int| 0 <= i < head.len() ==> is_space(#[trigger] head[i]),
    ensures
        tokens(head + s) == tokens(s),
    decreases s.len(),
{
    lemma_tokens_of_blank(head);
    if s.len() > 0 {
        assert((head + s).drop_last() =~= head + s.drop_last());
        lemma_tokens_ignore_head(head, s.drop_last());
    }
}

/// A word alone is its own single word.
pub proof fn lemma_tokens_of_word(w: Seq<char>)
    requires
        is_word(w),
    ensures
        tokens(w) == seq![w],
    decreases w.len(),
{
    if w.len() == 1 {
        assert(tokens(w.drop_last()) == Seq::<Seq<char>>::empty());
        assert(seq![w.last()] =~= w);
    } else {
        let front = w.drop_last();
        lemma_tokens_of_word(front);
        assert(front.push(w.last()) =~= w);
    }
}

/// Every word of a text is a word: not empty, without white space.
pub proof fn lemma_tokens_are_words(s: Seq<char>)
    ensures
        forall|k: int| 0 <= k < tokens(s).len() ==> is_word(#[trigger] tokens(s)[k]),
        s.len() > 0 && !is_space(s.last()) ==> tokens(s).len() > 0,
    decreases s.len(),
{
    if s.len() > 0 {
        let front = s.drop_last();
        lemma_tokens_are_words(front);
        if s.len() > 1 && !is_space(s.last()) && !is_space(front.last()) {
            // The last character makes the last word longer.
            assert(is_word(tokens(front).last().push(s.last())));
        }
    }
}

/// Where one text ends or the other begins with white space, or one of them
/// is empty, the words of both together are the words of the one, then the
/// words of the other.
pub proof fn lemma_tokens_split(a: Seq<char>, b: Seq<char>)
    requires
        a.len() == 0 || b.len() == 0 || is_space(a.last()) || is_space(b[0]),
    ensures
        tokens(a + b) == tokens(a) + tokens(b),
    decreases b.len(),
{
    if b.len() > 0 {
        let front = b.drop_last();
        assert((a + b).drop_last() =~= a + front);
        lemma_tokens_split(a, front);
        lemma_tokens_are_words(front);
    }
}

/// Splitting undoes joining: words joined by single spaces are found again as they were.
pub proof fn lemma_tokens_of_join(words: Seq<Seq<char>>)
    requires
        forall|k: int| 0 <= k < words.len() ==> is_word(#[trigger] words[k]),
    ensures
        tokens(join(words)) == words,
    decreases words.len(),
{
    if words.len() == 1 {
        lemma_tokens_of_word(words[0]);
    } else if words.len() > 1 {
        let head = words.drop_last();
        let last = words.last();
        lemma_tokens_of_join(head);
        lemma_tokens_ignore_tail(join(head), seq![' ']);
        lemma_tokens_split(join(head) + seq![' '], last);
        lemma_tokens_of_word(last);
    }
}

/// Joining two runs of words one after the other: the two joined, with a
/// space between them if neither is empty.
pub proof fn lemma_join_concat(a: Seq<Seq<char>>, b: Seq<Seq<char>>)
    ensures
        join(a + b) == if a.len() == 0 {
            join(b)
        } else if b.len() == 0 {
            join(a)
        } else {
            join(a) + seq![' '] + join(b)
        },
    decreases b.len(),
{
    if a.len() > 0 && b.len() > 0 {
        let front = b.drop_last();
        assert((a + b).drop_last() =~= a + front);
        lemma_join_concat(a, front);
    }
}

/// A longer run of the same words is not shorter when joined.
pub proof fn lemma_join_grows(words: Seq<Seq<char>>, j: int, k: int)
    requires
        0 <= j <= k <= words.len(),
    ensures
        join(words.take(j)).len() <= join(words.take(k)).len(),
{
    assert(words.take(k) =~= words.take(j) + words.subrange(j, k));
    lemma_join_concat(words.take(j), words.subrange(j, k));
}

/// The opening of a single-spaced text is single-spaced, if it does not end
/// in a space.
pub proof fn lemma_single_spaced_opening(text: Seq<char>, len: int)
    requires
        single_spaced(text),
        0 <= len <= text.len(),
        len == 0 || !is_space(text[len - 1]),
    ensures
        single_spaced(text.take(len)),
{
}

/// Joining undoes splitting where nothing is lost: a single-spaced text is
/// its words joined by single spaces.
pub proof fn lemma_join_of_tokens(text: Seq<char>)
    requires
        single_spaced(text),
    ensures
        join(tokens(text)) == text,
    decreases text.len(),
{
    let n = text.len() as int;
    if n == 1 {
        assert(tokens(text.drop_last()) =~= Seq::<Seq<char>>::empty());
    } else if n > 1 && is_space(text[n - 2]) {
        // The last word is the last character alone.
        let shorter = text.take(n - 2);
        assert(text.drop_last().drop_last() =~= shorter);
        lemma_single_spaced_opening(text, n - 2);
        lemma_join_of_tokens(shorter);
        lemma_tokens_are_words(shorter);
        let found = tokens(shorter);
        assert(found.push(seq![text.last()]).drop_last() =~= found);
    } else if n > 1 {
        // The last character makes the last word longer.
        let shorter = text.drop_last();
        lemma_single_spaced_opening(text, n - 1);
        lemma_join_of_tokens(shorter);
        lemma_tokens_are_words(shorter);
        let found = tokens(shorter);
        let grown = found.drop_last().push(found.last().push(text.last()));
        assert(grown.drop_last() =~= found.drop_last());
        assert(join(grown) =~= join(found).push(text.last()));
    }
}

/// Words joined by single spaces have no other white space, and none at either end.
pub proof fn lemma_join_single_spaced(words: Seq<Seq<char>>)
    requires
        forall|k: int| 0 <= k < words.len() ==> is_word(#[trigger] words[k]),
    ensures
        single_spaced(join(words)),
        words.len() > 0 ==> join(words).len() > 0 && !is_space(join(words)[0]) && !is_space(
            join(words).last(),
        ),
    decreases words.len(),
{
    if words.len() > 1 {
        lemma_join_single_spaced(words.drop_last());
    }
}

/// Whether `c` separates words.
pub fn is_space_char(c: char) -> (space: bool)
    ensures
        space == is_space(c),
{
    ('\u{9}' <= c && c <= '\u{d}') || c == ' ' || c == '\u{85}' || c == '\u{a0}' || c == '\u{1680}'
        || ('\u{2000}' <= c && c <= '\u{200a}') || c == '\u{2028}' || c == '\u{2029}' || c
        == '\u{202f}' || c == '\u{205f}' || c == '\u{3000}'
}

/// The characters of `s`, one by one.
pub fn chars_of(s: &str) -> (chars: Vec<char>)
    ensures
        chars@ == s@,
{
    let mut chars: Vec<char> = Vec::new();
    for c in it: s.chars()
        invariant
            it.seq() == s@,
            chars@ == s@.take(it.index() as int),
    {
        chars.push(c);
    }
    chars
}

/// Whether two texts hold the same characters.
pub fn same_text(a: &str, b: &str) -> (same: bool)
    ensures
        same == (a@ == b@),
{
    a.to_owned() == b.to_owned()
}

/// Splits a line into its words.
pub fn split_whitespace<'a>(s: &'a str) -> (words: Vec<&'a str>)
    ensures
        views(words@) == tokens(s@),
{
    let chars = chars_of(s);
    let mut words: Vec<&'a str> = Vec::new();
    let mut start: usize = 0;
    let mut in_word = false;
    let mut i: usize = 0;
    while i < chars.len()
        invariant
            chars@ == s@,
            i <= chars.len(),
            in_word ==> start < i && !is_space(s@[i - 1]),
            !in_word ==> i == 0 || is_space(s@[i - 1]),
            tokens(s@.take(i as int)) == if in_word {
                views(words@).push(s@.subrange(start as int, i as int))
            } else {
                views(words@)
            },
        decreases chars.len() - i,
    {
        assert(s@.take(i + 1).drop_last() =~= s@.take(i as int));
        if is_space_char(chars[i]) {
            if in_word {
                words.push(s.substring_char(start, i));
                in_word = false;
            }
        } else {
            if !in_word {
                start = i;
                in_word = true;
                assert(s@.subrange(i as int, i + 1) =~= seq![s@[i as int]]);
            } else {
                assert(s@.subrange(start as int, i + 1) =~= s@.subrange(start as int, i as int).push(
                    s@[i as int],
                ));
            }
        }
        i = i + 1;
    }
    assert(s@.take(i as int) =~= s@);
    if in_word {
        words.push(s.substring_char(start, i));
    }
    words
}

/// The words from position `from` on, joined by single spaces; nothing if
/// there are no words that far.
pub fn join_from(words: &Vec<&str>, from: usize) -> (text: String)
    ensures
        text@ == if from <= words.len() {
            join(views(words@).skip(from as int))
        } else {
            Seq::empty()
        },
{
    let mut text = String::new();
    if from > words.len() {
        return text;
    }
    let mut k: usize = from;
    while k < words.len()
        invariant
            from <= k <= words.len(),
            text@ == join(views(words@).subrange(from as int, k as int)),
        decreases words.len() - k,
    {
        let ghost all = views(words@);
        assert(all.subrange(from as int, k + 1).drop_last() =~= all.subrange(from as int, k as int));
        if k > from {
            proof {
                reveal_strlit(" ");
            }
            text.append(" ");
        }
        text.append(words[k]);
        k = k + 1;
    }
    text
}

/// Whether `needle` stands somewhere in `hay`.
pub fn contains_text(hay: &str, needle: &str) -> (found: bool)
    ensures
        found == contains(hay@, needle@),
{
    let h = chars_of(hay);
    let n = chars_of(needle);
    if n.len() > h.len() {
        return false;
    }
    let last: usize = h.len() - n.len();
    let mut i: usize = 0;
    while i <= last
        invariant
            h@ == hay@,
            n@ == needle@,
            last == h.len() - n.len(),
            i <= last + 1,
            forall|p: int| 0 <= p < i ==> !occurs_at(hay@, needle@, p),
        decreases last + 1 - i,
    {
        let mut k: usize = 0;
        while k < n.len() && h[i + k] == n[k]
            invariant
                h@ == hay@,
                n@ == needle@,
                i + n.len() <= h.len(),
                k <= n.len(),
                forall|q: int| 0 <= q < k ==> h@[i + q] == n@[q],
            decreases n.len() - k,
        {
            k = k + 1;
        }
        if k == n.len() {
            assert(hay@.subrange(i as int, i + n.len()) =~= needle@);
            assert(occurs_at(hay@, needle@, i as int));
            return true;
        }
        i = i + 1;
    }
    false
}

/// Appends `s` to `out`, left-aligned in a column of `width` characters.
pub fn append_padded(out: &mut String, s: &str, width: usize)
    ensures
        final(out)@ == old(out)@ + padded(s@, width as nat),
{
    out.append(s);
    let n: usize = s.unicode_len();
    let mut k: usize = n;
    while k < width
        invariant
            n == s@.len(),
            n <= k,
            k <= width || k == n,
            out@ == old(out)@ + s@ + Seq::new((k - n) as nat, |i: int| ' '),
        decreases width - k,
    {
        proof {
            reveal_strlit(" ");
        }
        out.append(" ");
        k = k + 1;
    }
}

} // verus!
