//! The format of a URL list: words separated by runs of ASCII whitespace.
//!
//! A text is split at every run of separators; what lies between two runs
//! is a token. There are no lines, no comments and no quoting.

use vstd::prelude::*;
use vstd::std_specs::iter::IteratorSpec;

verus! {

/// `String::push` of the standard library appends the character to the end
/// of the string and changes nothing else.
pub assume_specification[ String::push ](s: &mut String, ch: char)
    ensures
        final(s)@ == old(s)@.push(ch),
;

/// The ASCII whitespace characters: space, horizontal tab, line feed, form
/// feed and carriage return. No other character separates tokens.
pub open spec fn is_separator(c: char) -> bool {
    c == ' ' || c == '\t' || c == '\n' || c == '\x0C' || c == '\r'
}

/// The tokens of a text, in the order of the text.
///
/// The definition follows the text character by character: a separator
/// adds nothing; a character that is no separator extends the last token
/// where the character before it is none either, and begins a new token
/// otherwise. The laws below say what this amounts to.
pub open spec fn tokens_of(text: Seq<char>) -> Seq<Seq<char>>
    decreases text.len(),
{
    if text.len() == 0 {
        Seq::empty()
    } else {
        let before = tokens_of(text.drop_last());
        let c = text.last();
        if is_separator(c) {
            before
        } else if text.len() >= 2 && !is_separator(text[text.len() - 2]) {
            before.drop_last().push(before.last().push(c))
        } else {
            before.push(seq![c])
        }
    }
}

/// The texts of a list of strings.
pub open spec fn texts(strings: Seq<String>) -> Seq<Seq<char>> {
    strings.map_values(|s: String| s@)
}

/// Tells whether `c` is an ASCII whitespace character.
pub fn is_ascii_whitespace(c: char) -> (b: bool)
    ensures
        b == is_separator(c),
{
    c == ' ' || c == '\t' || c == '\n' || c == '\x0C' || c == '\r'
}

/// Splits a text into its tokens: the maximal runs of characters that are
/// no ASCII whitespace, in the order of the text.
pub fn split_ascii_whitespace(text: &str) -> (tokens: Vec<String>)
    ensures
        texts(tokens@) == tokens_of(text@),
        forall|i: int| 0 <= i < tokens.len() ==> is_word((#[trigger] tokens[i])@),
{
    let mut tokens: Vec<String> = Vec::new();
    let mut current = String::new();
    let mut in_token = false;
    for c in it: text.chars()
        invariant
            it.seq() == text@,
            in_token <==> current@.len() > 0,
            in_token <==> it.index() > 0 && !is_separator(text@[it.index() - 1]),
            tokens_of(text@.take(it.index())) == if in_token {
                texts(tokens@).push(current@)
            } else {
                texts(tokens@)
            },
    {
        let ghost i = it.index();
        let ghost word = current@;
        proof {
            assert(text@.take(i + 1).drop_last() == text@.take(i));
        }
        if is_ascii_whitespace(c) {
            if in_token {
                tokens.push(current);
                current = String::new();
                in_token = false;
            }
        } else {
            current.push(c);
            proof {
                if !in_token {
                    assert(word.push(c) == seq![c]);
                }
            }
            in_token = true;
        }
    }
    if in_token {
        tokens.push(current);
    }
    proof {
        assert(text@.take(text@.len() as int) == text@);
        assert(texts(tokens@) == tokens_of(text@));
        lemma_tokens_are_words(text@);
        assert forall|i: int| 0 <= i < tokens.len() implies is_word((#[trigger] tokens[i])@) by {
            assert(tokens_of(text@)[i] == tokens[i]@);
        }
    }
    tokens
}

/// Tells whether two texts are equal, character by character.
pub fn same_text(a: &str, b: &str) -> (same: bool)
    ensures
        same == (a@ == b@),
{
    let mut rest = b.chars();
    for x in it: a.chars()
        invariant
            it.seq() == a@,
            b@ == a@.take(it.index()) + rest.remaining(),
    {
        match rest.next() {
            None => {
                return false;
            },
            Some(y) => {
                if x != y {
                    return false;
                }
            },
        }
    }
    proof {
        assert(rest.remaining().len() == 0 ==> b@ == a@);
    }
    rest.next().is_none()
}

/// A word: a text that is not empty and holds no separator.
pub open spec fn is_word(text: Seq<char>) -> bool {
    &&& text.len() > 0
    &&& forall|j: int| 0 <= j < text.len() ==> !is_separator(#[trigger] text[j])
}

/// A blank: a text that holds nothing but separators.
pub open spec fn is_blank(text: Seq<char>) -> bool {
    forall|j: int| 0 <= j < text.len() ==> is_separator(#[trigger] text[j])
}

/// Every token is a word, and a text that ends in a character that is no
/// separator has a token.
pub proof fn lemma_tokens_are_words(text: Seq<char>)
    ensures
        forall|i: int| 0 <= i < tokens_of(text).len() ==> is_word(#[trigger] tokens_of(text)[i]),
        text.len() > 0 && !is_separator(text.last()) ==> tokens_of(text).len() > 0,
    decreases text.len(),
{
    if text.len() > 0 {
        let before = tokens_of(text.drop_last());
        let now = tokens_of(text);
        lemma_tokens_are_words(text.drop_last());
        assert forall|i: int| 0 <= i < now.len() implies is_word(#[trigger] now[i]) by {
            if i < now.len() - 1 {
                assert(now[i] == before[i]);
            }
        }
    }
}

/// A word is its own single token.
pub proof fn lemma_tokens_of_word(word: Seq<char>)
    requires
        is_word(word),
    ensures
        tokens_of(word) == seq![word],
    decreases word.len(),
{
    let shorter = word.drop_last();
    if word.len() == 1 {
        assert(seq![word.last()] == word);
        assert(tokens_of(shorter).push(word) == seq![word]);
    } else {
        assert(is_word(shorter));
        lemma_tokens_of_word(shorter);
        assert(shorter.push(word.last()) == word);
    }
}

/// A blank has no token.
pub proof fn lemma_tokens_of_blank(blank: Seq<char>)
    requires
        is_blank(blank),
    ensures
        tokens_of(blank).len() == 0,
    decreases blank.len(),
{
    if blank.len() > 0 {
        lemma_tokens_of_blank(blank.drop_last());
    }
}

/// Two texts that meet at a separator, or of which one is empty, are split
/// apart: the tokens of the whole are those of the first, then those of the
/// second.
pub proof fn lemma_tokens_concat(first: Seq<char>, second: Seq<char>)
    requires
        first.len() == 0 || second.len() == 0 || is_separator(first.last()) || is_separator(
            second.first(),
        ),
    ensures
        tokens_of(first + second) == tokens_of(first) + tokens_of(second),
    decreases second.len(),
{
    if second.len() > 0 {
        let shorter = second.drop_last();
        assert((first + second).drop_last() == first + shorter);
        lemma_tokens_concat(first, shorter);
        lemma_tokens_are_words(shorter);
    }
}

/// The text that holds `words` with `gaps` around them: first `gaps[0]`,
/// then each word followed by the next gap.
pub open spec fn interleaved(words: Seq<Seq<char>>, gaps: Seq<Seq<char>>) -> Seq<char>
    decreases words.len(),
{
    if words.len() == 0 || gaps.len() == 0 {
        gaps.first()
    } else {
        interleaved(words.drop_last(), gaps.drop_last()) + words.last() + gaps.last()
    }
}

/// `gaps` can separate `words`: there is a gap before, between and after
/// the words, every gap is blank, and those between two words are not empty.
pub open spec fn separates(gaps: Seq<Seq<char>>, words: Seq<Seq<char>>) -> bool {
    &&& gaps.len() == words.len() + 1
    &&& forall|i: int| 0 <= i < gaps.len() ==> is_blank(#[trigger] gaps[i])
    &&& forall|i: int| 0 < i < words.len() ==> (#[trigger] gaps[i]).len() > 0
}

/// A text written as words with runs of separators between them has
/// exactly those words as its tokens, in their order; separators before the
/// first and after the last word change nothing.
pub proof fn lemma_tokens_of_interleaved(words: Seq<Seq<char>>, gaps: Seq<Seq<char>>)
    requires
        separates(gaps, words),
        forall|i: int| 0 <= i < words.len() ==> is_word(#[trigger] words[i]),
    ensures
        tokens_of(interleaved(words, gaps)) == words,
{
    lemma_interleaved(words, gaps);
}

/// The induction behind `lemma_tokens_of_interleaved`: it also keeps track
/// of how the text ends, which decides whether a further word starts a new
/// token.
proof fn lemma_interleaved(words: Seq<Seq<char>>, gaps: Seq<Seq<char>>)
    requires
        separates(gaps, words),
        forall|i: int| 0 <= i < words.len() ==> is_word(#[trigger] words[i]),
    ensures
        tokens_of(interleaved(words, gaps)) == words,
        ({
            let text = interleaved(words, gaps);
            text.len() == 0 || is_separator(text.last()) || gaps.last().len() == 0
        }),
    decreases words.len(),
{
    if words.len() == 0 {
        lemma_tokens_of_blank(gaps.first());
    } else {
        let before = interleaved(words.drop_last(), gaps.drop_last());
        let word = words.last();
        let gap = gaps.last();
        assert(separates(gaps.drop_last(), words.drop_last()));
        lemma_interleaved(words.drop_last(), gaps.drop_last());
        lemma_tokens_concat(before, word);
        lemma_tokens_of_word(word);
        lemma_tokens_of_blank(gap);
        lemma_tokens_concat(before + word, gap);
    }
}

} // verus!
