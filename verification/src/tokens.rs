//! The token buffer of the `quote` crate, and what is known of its text.
//!
//! A buffer holds source text as words separated by single blanks. The
//! functions at the top of this file are the only ones whose contracts are
//! taken on trust: each states what the corresponding function of `quote` or
//! `syn` does to the text of a buffer.

use vstd::prelude::*;

verus! {

/// `quote::Tokens`, the buffer that generated source text is collected in.
/// Nothing of its inside is visible here; `tokens_text` names what it holds.
#[verifier::external_type_specification]
#[verifier::external_body]
pub struct ExTokens(quote::Tokens);

/// The text that a buffer holds.
pub uninterp spec fn tokens_text(tokens: quote::Tokens) -> Seq<char>;

/// The text of a buffer after one more word: a blank goes between the text so
/// far and the word unless one of them is empty.
pub open spec fn appended(text: Seq<char>, word: Seq<char>) -> Seq<char> {
    if text.len() > 0 && word.len() > 0 {
        text + seq![' '] + word
    } else {
        text + word
    }
}

/// `quote::Tokens::new` returns a buffer without text.
pub assume_specification[ quote::Tokens::new ]() -> (tokens: quote::Tokens)
    ensures
        tokens_text(tokens) == Seq::<char>::empty(),
;

/// `quote::Tokens::append` with a string slice: the word is added at the end
/// of the buffer's text, after a blank where both are non-empty.
#[verifier::external_body]
pub(crate) fn append_word(tokens: &mut quote::Tokens, word: &str)
    ensures
        tokens_text(*final(tokens)) == appended(tokens_text(*old(tokens)), word@),
{
    tokens.append(word);
}

/// `quote::ToTokens::to_tokens` of the `syn::Ident` that `syn::Ident::new`
/// makes of `name`: the identifier is added to the buffer as `append` adds a
/// word, letter for letter and without quotes.
#[verifier::external_body]
pub(crate) fn append_ident(tokens: &mut quote::Tokens, name: &str)
    ensures
        tokens_text(*final(tokens)) == appended(tokens_text(*old(tokens)), name@),
{
    quote::ToTokens::to_tokens(&syn::Ident::new(name), tokens);
}

/// `quote::ToTokens::to_tokens` of a `quote::Tokens`: the whole text of
/// `inner` is added to the buffer as `append` adds a single word.
#[verifier::external_body]
pub(crate) fn append_tokens(tokens: &mut quote::Tokens, inner: &quote::Tokens)
    ensures
        tokens_text(*final(tokens)) == appended(tokens_text(*old(tokens)), tokens_text(*inner)),
{
    quote::ToTokens::to_tokens(inner, tokens);
}

/// The text that results from adding `words`, first to last, to a buffer that
/// holds `text`.
pub open spec fn join_onto(text: Seq<char>, words: Seq<Seq<char>>) -> Seq<char>
    decreases words.len(),
{
    if words.len() == 0 {
        text
    } else {
        appended(join_onto(text, words.drop_last()), words.last())
    }
}

/// The text of a buffer that was filled with `words`, first to last.
pub open spec fn joined(words: Seq<Seq<char>>) -> Seq<char> {
    join_onto(Seq::empty(), words)
}

/// The character sequences of a list of string slices.
pub open spec fn word_views(words: Seq<&str>) -> Seq<Seq<char>> {
    words.map_values(|word: &str| word@)
}

/// Adding one more word after `words` is one more `appended`.
pub proof fn lemma_join_push(text: Seq<char>, words: Seq<Seq<char>>, word: Seq<char>)
    ensures
        join_onto(text, words.push(word)) == appended(join_onto(text, words), word),
{
    assert(words.push(word).drop_last() =~= words);
}

/// Adding `first` and then `second` is adding their concatenation.
pub proof fn lemma_join_concat(text: Seq<char>, first: Seq<Seq<char>>, second: Seq<Seq<char>>)
    ensures
        join_onto(text, first + second) == join_onto(join_onto(text, first), second),
    decreases second.len(),
{
    if second.len() == 0 {
        assert(first + second =~= first);
    } else {
        lemma_join_concat(text, first, second.drop_last());
        assert((first + second).drop_last() =~= first + second.drop_last());
    }
}

/// Adds each of `words` to the buffer, first to last.
pub fn append_words(tokens: &mut quote::Tokens, words: &[&str])
    ensures
        tokens_text(*final(tokens)) == join_onto(tokens_text(*old(tokens)), word_views(words@)),
{
    let mut i: usize = 0;
    while i < words.len()
        invariant
            i <= words.len(),
            tokens_text(*tokens) == join_onto(
                tokens_text(*old(tokens)),
                word_views(words@.take(i as int)),
            ),
        decreases words.len() - i,
    {
        proof {
            lemma_join_push(
                tokens_text(*old(tokens)),
                word_views(words@.take(i as int)),
                words@[i as int]@,
            );
            assert(word_views(words@.take(i as int + 1)) =~= word_views(
                words@.take(i as int),
            ).push(words@[i as int]@));
        }
        append_word(tokens, words[i]);
        i += 1;
    }
    assert(words@.take(i as int) =~= words@);
}

} // verus!
