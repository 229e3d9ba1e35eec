//! The source text of a generated decoder.
//!
//! Text is handed to the token buffer word by word, so a piece of text is
//! described by the list of its words. A buffer that was filled on its own
//! enters another buffer as a single word.

use vstd::prelude::*;
use vstd::string::StringExecFns;
use crate::plan::{DecodeStatement, DecodeStatementView, GeneratedFragment, GeneratedFragmentView};
use crate::shape::Primitive;
use crate::tokens::{
    append_ident, append_tokens, append_word, append_words, join_onto, joined, lemma_join_concat,
    lemma_join_push, tokens_text, word_views,
};

verus! {

/// What stands between a constructor slot and the name of the primitive.
pub const RECEIVER: [&'static str; 3] = [":", "reader", "."];

/// What stands behind the name of the primitive: the call, the propagation of
/// its error, and the comma that ends the initialiser.
pub const CALL: [&'static str; 4] = ["(", ")", "?", ","];

/// The start of the implementation, up to the record's identifier.
pub const IMPL_OPENING: [&'static str; 5] = ["impl", "serialization", "::", "Deserializable", "for"];

/// The header of `deserialize` and the start of its body, up to the
/// constructor's name.
pub const DECODE_HEADER: [&'static str; 37] = [
    "{",
    "fn",
    "deserialize",
    "<",
    "T",
    ">",
    "(",
    "reader",
    ":",
    "&",
    "mut",
    "serialization",
    "::",
    "Reader",
    "<",
    "T",
    ">",
    ")",
    "->",
    "Result",
    "<",
    "Self",
    ",",
    "serialization",
    "::",
    "Error",
    ">",
    "where",
    "T",
    ":",
    "io",
    "::",
    "Read",
    "{",
    "let",
    "result",
    "=",
];

/// The end of the constructor, the result of `deserialize`, and the end of
/// the implementation.
pub const IMPL_CLOSING: [&'static str; 8] = ["}", ";", "Ok", "(", "result", ")", "}", "}"];

/// The lints that generated code is excused from, and the keyword of the
/// constant that holds it.
pub const DECODER_OPENING: [&'static str; 12] = [
    "#",
    "[",
    "allow",
    "(",
    "non_upper_case_globals",
    ",",
    "unused_attributes",
    ",",
    "unused_qualifications",
    ")",
    "]",
    "const",
];

/// The type of the constant and, inside its initialiser, the imports that
/// the implementation relies on.
pub const DECODER_IMPORTS: [&'static str; 14] = [
    ":",
    "(",
    ")",
    "=",
    "{",
    "extern",
    "crate",
    "serialization",
    ";",
    "use",
    "std",
    "::",
    "io",
    ";",
];

/// The name of the reader's method that stands for a primitive.
pub open spec fn primitive_word(primitive: Primitive) -> Seq<char> {
    match primitive {
        Primitive::ReadOne => "read"@,
        Primitive::ReadList => "read_list"@,
    }
}

/// The words of one field initialiser, `slot: reader.read()?,` or
/// `slot: reader.read_list()?,`.
pub open spec fn statement_words(statement: DecodeStatementView) -> Seq<Seq<char>> {
    seq![statement.ident] + word_views(RECEIVER@) + seq![primitive_word(statement.primitive)]
        + word_views(CALL@)
}

/// The text of one field initialiser.
pub open spec fn statement_text(statement: DecodeStatementView) -> Seq<char> {
    joined(statement_words(statement))
}

/// The texts of the field initialisers of a plan, in the same order.
pub open spec fn statement_texts(statements: Seq<DecodeStatementView>) -> Seq<Seq<char>> {
    statements.map_values(|statement: DecodeStatementView| statement_text(statement))
}

/// The words of the implementation of `serialization::Deserializable` for a
/// planned record:
///
/// ```text
/// impl serialization::Deserializable for Record {
///     fn deserialize<T>(reader: &mut serialization::Reader<T>)
///         -> Result<Self, serialization::Error> where T: io::Read
///     {
///         let result = Record { first: reader.read()?, second: reader.read_list()?, };
///         Ok(result)
///     }
/// }
/// ```
///
/// The field initialisers stand in declaration order, each as one word.
pub open spec fn impl_block_words(fragment: GeneratedFragmentView) -> Seq<Seq<char>> {
    word_views(IMPL_OPENING@) + seq![fragment.ident] + word_views(DECODE_HEADER@) + seq![
        fragment.ident,
        "{"@,
    ] + statement_texts(fragment.statements) + word_views(IMPL_CLOSING@)
}

/// The text of the implementation of `serialization::Deserializable` for a
/// planned record.
pub open spec fn impl_block_text(fragment: GeneratedFragmentView) -> Seq<char> {
    joined(impl_block_words(fragment))
}

/// The name of the constant that holds the implementation for a record.
pub open spec fn helper_const_name(ident: Seq<char>) -> Seq<char> {
    "_IMPL_RAW_DESERIALIZE_FOR_"@ + ident
}

/// The words of the whole decoder of a planned record: a unit constant named
/// after the record, whose initialiser is a block that holds the imports and
/// then the implementation, as one word.
///
/// ```text
/// #[allow(non_upper_case_globals, unused_attributes, unused_qualifications)]
/// const _IMPL_RAW_DESERIALIZE_FOR_Record: () = {
///     extern crate serialization;
///     use std::io;
///     impl serialization::Deserializable for Record { .. }
/// };
/// ```
pub open spec fn decoder_words(fragment: GeneratedFragmentView) -> Seq<Seq<char>> {
    word_views(DECODER_OPENING@) + seq![helper_const_name(fragment.ident)] + word_views(
        DECODER_IMPORTS@,
    ) + seq![impl_block_text(fragment), "}"@, ";"@]
}

/// The text of the whole decoder of a planned record.
pub open spec fn decoder_text(fragment: GeneratedFragmentView) -> Seq<char> {
    joined(decoder_words(fragment))
}

/// Writes the field initialiser of a statement into a buffer of its own.
pub fn statement_tokens(statement: &DecodeStatement) -> (tokens: quote::Tokens)
    ensures
        tokens_text(tokens) == statement_text(statement@),
{
    let mut tokens = quote::Tokens::new();
    append_ident(&mut tokens, statement.ident.as_str());
    append_words(&mut tokens, &RECEIVER);
    let method = match statement.primitive {
        Primitive::ReadOne => "read",
        Primitive::ReadList => "read_list",
    };
    append_word(&mut tokens, method);
    append_words(&mut tokens, &CALL);
    proof {
        let empty = Seq::<char>::empty();
        let slot = seq![statement@.ident];
        let receiver = slot + word_views(RECEIVER@);
        let callee = receiver + seq![primitive_word(statement@.primitive)];
        lemma_join_push(empty, Seq::empty(), statement@.ident);
        lemma_join_concat(empty, slot, word_views(RECEIVER@));
        lemma_join_push(empty, receiver, primitive_word(statement@.primitive));
        assert(receiver.push(primitive_word(statement@.primitive)) =~= callee);
        lemma_join_concat(empty, callee, word_views(CALL@));
    }
    tokens
}

/// Writes the implementation of `serialization::Deserializable` for a planned
/// record into a buffer of its own.
pub fn impl_block_tokens(fragment: &GeneratedFragment) -> (tokens: quote::Tokens)
    ensures
        tokens_text(tokens) == impl_block_text(fragment@),
{
    let ghost empty = Seq::<char>::empty();
    let ghost record = word_views(IMPL_OPENING@) + seq![fragment@.ident];
    let ghost header = record + word_views(DECODE_HEADER@);
    let ghost constructor = header + seq![fragment@.ident, "{"@];
    let mut tokens = quote::Tokens::new();
    append_words(&mut tokens, &IMPL_OPENING);
    append_ident(&mut tokens, fragment.ident.as_str());
    append_words(&mut tokens, &DECODE_HEADER);
    append_ident(&mut tokens, fragment.ident.as_str());
    append_word(&mut tokens, "{");
    proof {
        lemma_join_push(empty, word_views(IMPL_OPENING@), fragment@.ident);
        assert(word_views(IMPL_OPENING@).push(fragment@.ident) =~= record);
        lemma_join_concat(empty, record, word_views(DECODE_HEADER@));
        lemma_join_push(empty, header, fragment@.ident);
        lemma_join_push(empty, header.push(fragment@.ident), "{"@);
        assert(header.push(fragment@.ident).push("{"@) =~= constructor);
    }
    let mut i: usize = 0;
    while i < fragment.statements.len()
        invariant
            i <= fragment.statements.len(),
            tokens_text(tokens) == join_onto(
                joined(constructor),
                statement_texts(fragment@.statements.take(i as int)),
            ),
        decreases fragment.statements.len() - i,
    {
        let statement = statement_tokens(&fragment.statements[i]);
        proof {
            lemma_join_push(
                joined(constructor),
                statement_texts(fragment@.statements.take(i as int)),
                tokens_text(statement),
            );
            assert(statement_texts(fragment@.statements.take(i as int + 1))
                =~= statement_texts(fragment@.statements.take(i as int)).push(
                tokens_text(statement),
            ));
        }
        append_tokens(&mut tokens, &statement);
        i += 1;
    }
    append_words(&mut tokens, &IMPL_CLOSING);
    proof {
        assert(fragment@.statements.take(i as int) =~= fragment@.statements);
        lemma_join_concat(empty, constructor, statement_texts(fragment@.statements));
        lemma_join_concat(
            empty,
            constructor + statement_texts(fragment@.statements),
            word_views(IMPL_CLOSING@),
        );
    }
    tokens
}

/// Writes the whole decoder of a planned record.
pub fn decoder_tokens(fragment: &GeneratedFragment) -> (tokens: quote::Tokens)
    ensures
        tokens_text(tokens) == decoder_text(fragment@),
{
    let ghost empty = Seq::<char>::empty();
    let ghost named = word_views(DECODER_OPENING@) + seq![helper_const_name(fragment@.ident)];
    let ghost imports = named + word_views(DECODER_IMPORTS@);
    let mut const_name = String::from_str("_IMPL_RAW_DESERIALIZE_FOR_");
    const_name.append(fragment.ident.as_str());
    let impl_block = impl_block_tokens(fragment);
    let mut tokens = quote::Tokens::new();
    append_words(&mut tokens, &DECODER_OPENING);
    append_ident(&mut tokens, const_name.as_str());
    append_words(&mut tokens, &DECODER_IMPORTS);
    append_tokens(&mut tokens, &impl_block);
    append_word(&mut tokens, "}");
    append_word(&mut tokens, ";");
    proof {
        let body = imports.push(impl_block_text(fragment@));
        lemma_join_push(empty, word_views(DECODER_OPENING@), helper_const_name(fragment@.ident));
        assert(word_views(DECODER_OPENING@).push(helper_const_name(fragment@.ident)) =~= named);
        lemma_join_concat(empty, named, word_views(DECODER_IMPORTS@));
        lemma_join_push(empty, imports, impl_block_text(fragment@));
        lemma_join_push(empty, body, "}"@);
        lemma_join_push(empty, body.push("}"@), ";"@);
        assert(body.push("}"@).push(";"@) =~= decoder_words(fragment@));
    }
    tokens
}

} // verus!
