//! The two free-text patterns of the grammar, `use A on B` and `use A`,
//! as regular expressions handed to the `regex` crate.

use vstd::prelude::*;
use crate::text::{
    is_space, is_word, join, lemma_join_concat, lemma_join_of_tokens, lemma_join_single_spaced,
    lemma_single_spaced_opening, lemma_tokens_are_words, lemma_tokens_ignore_tail,
    lemma_tokens_of_join, lemma_tokens_of_word, lemma_tokens_split, occurs_at, single_spaced,
    tokens,
};

verus! {

/// `use`, white space, then the target up to the end of the text.
pub const USE_PATTERN: &'static str = r"^[uU]se\s+(.*)$";

/// `use`, white space, then a target and an object around the word ` on `.
pub const USE_ON_PATTERN: &'static str = r"^[uU]se\s+(.*) on (.*)$";

/// True when `text` opens with `use ` or `Use `.
pub open spec fn use_prefixed(text: Seq<char>) -> bool {
    &&& text.len() > 3
    &&& text[0] == 'u' || text[0] == 'U'
    &&& text[1] == 's'
    &&& text[2] == 'e'
    &&& text[3] == ' '
}

/// True when ` on ` stands in `text` at position `p`, after the opening `use `.
pub open spec fn on_at(text: Seq<char>, p: int) -> bool {
    4 <= p && occurs_at(text, " on "@, p)
}

/// True when `p` is the last position of ` on ` in `text`.
pub open spec fn is_last_on(text: Seq<char>, p: int) -> bool {
    on_at(text, p) && forall|q: int| on_at(text, q) ==> q <= p
}

/// What `use A` captures in a single-spaced text: all that follows `use `.
pub open spec fn use_target(text: Seq<char>) -> Option<Seq<char>> {
    if use_prefixed(text) {
        Some(text.skip(4))
    } else {
        None
    }
}

/// What `use A on B` captures in a single-spaced text: what stands between
/// `use ` and the last ` on `, and what stands after it.
pub open spec fn use_on_targets(text: Seq<char>) -> Option<(Seq<char>, Seq<char>)> {
    if use_prefixed(text) && exists|p: int| is_last_on(text, p) {
        let p = choose|p: int| is_last_on(text, p);
        Some((text.subrange(4, p), text.skip(p + 4)))
    } else {
        None
    }
}

/// What a search for `use A` finds in a single-spaced text: no match, or the
/// groups of the match, which are the whole text and the target.
pub open spec fn use_groups(text: Seq<char>) -> Option<Seq<Option<Seq<char>>>> {
    match use_target(text) {
        Some(target) => Some(seq![Some(text), Some(target)]),
        None => None,
    }
}

/// What a search for `use A on B` finds in a single-spaced text: no match, or
/// the groups of the match, which are the whole text, the target and the object.
pub open spec fn use_on_groups(text: Seq<char>) -> Option<Seq<Option<Seq<char>>>> {
    match use_on_targets(text) {
        Some((target, object)) => Some(seq![Some(text), Some(target), Some(object)]),
        None => None,
    }
}

/// The error that `regex::Regex::new` gives for a pattern it cannot compile.
#[verifier::external_type_specification]
#[verifier::external_body]
pub struct ExRegexError(regex::Error);

/// Compiles `pattern` with `regex::Regex::new`, searches `text` with
/// `Regex::captures`, and hands out what each group matched
/// (`Captures::iter`, `Match::as_str`), the whole match first.
///
/// The contract speaks of the two patterns of this grammar only, and of
/// single-spaced texts only. It claims that both patterns compile; that
/// `^[uU]se\s+(.*)$` matches exactly the texts that open with `use ` or `Use `
/// and captures the rest; and that `^[uU]se\s+(.*) on (.*)$` matches exactly
/// those of them that hold ` on ` further on, and parts them at its last
/// occurrence, because the first group is greedy. In a single-spaced text the
/// `\s+` can only be the one space after `use`, and the text holds no line
/// feed, the one character that `.` leaves out.
#[verifier::external_body]
fn captures(pattern: &str, text: &str) -> (found: Result<Option<Vec<Option<String>>>, regex::Error>)
    requires
        single_spaced(text@),
    ensures
        pattern@ == USE_PATTERN@ ==> found is Ok && found->Ok_0.deep_view() == use_groups(text@),
        pattern@ == USE_ON_PATTERN@ ==> found is Ok && found->Ok_0.deep_view() == use_on_groups(
            text@,
        ),
{
    let re = regex::Regex::new(pattern)?;
    Ok(re.captures(text).map(|caps| caps.iter().map(|m| m.map(|m| m.as_str().to_owned())).collect()))
}

/// The target of `use A`, if `text` has that form.
pub(crate) fn match_use(text: &str) -> (target: Option<String>)
    requires
        single_spaced(text@),
    ensures
        target.deep_view() == use_target(text@),
{
    match captures(USE_PATTERN, text) {
        Ok(Some(groups)) => {
            let ghost expected = seq![Some(text@), use_target(text@)];
            assert(groups.deep_view() == expected);
            groups[1].clone()
        },
        Ok(None) => None,
        // Not reached: the pattern compiles.
        Err(_) => None,
    }
}

/// The target and the object of `use A on B`, if `text` has that form.
pub(crate) fn match_use_on(text: &str) -> (targets: Option<(String, String)>)
    requires
        single_spaced(text@),
    ensures
        match targets {
            Some((a, b)) => use_on_targets(text@) == Some((a@, b@)),
            None => use_on_targets(text@) is None,
        },
{
    match captures(USE_ON_PATTERN, text) {
        Ok(Some(groups)) => {
            let ghost (a, b) = use_on_targets(text@)->Some_0;
            let ghost expected = seq![Some(text@), Some(a), Some(b)];
            assert(groups.deep_view() == expected);
            match (groups[1].clone(), groups[2].clone()) {
                (Some(target), Some(object)) => Some((target, object)),
                // Not reached: both groups take part in every match.
                _ => None,
            }
        },
        Ok(None) => None,
        // Not reached: the pattern compiles.
        Err(_) => None,
    }
}

/// True for the two spellings of the verb of the free-text patterns.
pub open spec fn use_word(w: Seq<char>) -> bool {
    w == "use"@ || w == "Use"@
}

/// True when word `j` of a line is an `on` that parts a target from an
/// object: words stand between the opening verb and it, and words after it.
pub open spec fn parting_on(words: Seq<Seq<char>>, j: int) -> bool {
    2 <= j <= words.len() - 2 && words[j] == "on"@
}

/// Words joined open with `use ` exactly when there are at least two and the
/// first is the verb; what follows `use ` is then the other words joined.
pub proof fn lemma_use_prefix_by_words(words: Seq<Seq<char>>)
    requires
        forall|k: int| 0 <= k < words.len() ==> is_word(#[trigger] words[k]),
    ensures
        use_prefixed(join(words)) <==> words.len() >= 2 && use_word(words[0]),
        use_prefixed(join(words)) ==> join(words).skip(4) == join(words.skip(1)),
{
    reveal_strlit("use");
    reveal_strlit("Use");
    if words.len() >= 1 {
        let first = words[0];
        let rest = words.skip(1);
        assert(words =~= seq![first] + rest);
        lemma_join_concat(seq![first], rest);
        if words.len() >= 2 && use_prefixed(join(words)) {
            // The first word ends where the first space stands.
            assert(first =~= "use"@ || first =~= "Use"@);
        }
    }
}

/// An `on` between other words stands in the words joined as ` on `, and
/// parts them into the words before it joined and the words after it joined.
pub proof fn lemma_on_word_position(words: Seq<Seq<char>>, j: int)
    requires
        1 <= j <= words.len() - 2,
        words[j] == "on"@,
    ensures
        occurs_at(join(words), " on "@, join(words.take(j)).len() as int),
        join(words).take(join(words.take(j)).len() as int) == join(words.take(j)),
        join(words).skip(join(words.take(j)).len() as int + 4) == join(words.skip(j + 1)),
{
    reveal_strlit("on");
    reveal_strlit(" on ");
    let before = words.take(j);
    let after = words.skip(j + 1);
    let tail = seq![words[j]] + after;
    assert(words =~= before + tail);
    lemma_join_concat(seq![words[j]], after);
    lemma_join_concat(before, tail);
    let text = join(words);
    let p = join(before).len() as int;
    assert(text.subrange(p, p + 4) =~= " on "@);
}

/// Where ` on ` stands in words joined, one of the words is `on`, with words
/// before it and after it, and the words before it joined end there.
pub proof fn lemma_position_on_word(words: Seq<Seq<char>>, p: int) -> (j: int)
    requires
        forall|k: int| 0 <= k < words.len() ==> is_word(#[trigger] words[k]),
        occurs_at(join(words), " on "@, p),
    ensures
        1 <= j <= words.len() - 2,
        words[j] == "on"@,
        join(words.take(j)).len() == p,
{
    reveal_strlit("on");
    reveal_strlit(" on ");
    let text = join(words);
    lemma_join_single_spaced(words);
    lemma_tokens_of_join(words);
    let part = text.subrange(p, p + 4);
    assert(part[0] == text[p] && part[1] == text[p + 1] && part[2] == text[p + 2] && part[3]
        == text[p + 3]);
    let left = text.take(p);
    let right = text.skip(p + 4);
    let middle = text.subrange(p + 1, p + 4);
    // The text is `left`, a space, `on`, a space, `right`.
    assert(text =~= (left + seq![' ']) + (middle + right));
    lemma_tokens_split(left + seq![' '], middle + right);
    lemma_tokens_ignore_tail(left, seq![' ']);
    assert(middle =~= "on"@ + seq![' ']);
    lemma_tokens_split(middle, right);
    lemma_tokens_ignore_tail("on"@, seq![' ']);
    lemma_tokens_of_word("on"@);
    // Neither side is empty or ends in a space.
    lemma_tokens_are_words(left);
    lemma_tokens_are_words(right);
    let j = tokens(left).len() as int;
    assert(words.take(j) =~= tokens(left));
    lemma_single_spaced_opening(text, p);
    lemma_join_of_tokens(left);
    j
}

} // verus!
