//! What the translations are: the Morse code of a text, the text of a Morse
//! code, and the translation of input that mixes the two.
//!
//! The definitions follow the input from left to right, one character, token
//! or word at a time. The translator's functions are stated against them.

use crate::table::{character_of, code_of, lemma_code_shape, lemma_table_bijective};
use crate::text::{
    lemma_pieces_extend, lemma_pieces_nonempty, lemma_tokens_extend, lemma_trimmed_blank,
    lemma_trimmed_ends, lemma_trimmed_exact, lemma_trimmed_is_part, pieces, tokens, trimmed,
    whitespace,
};
use vstd::prelude::*;

verus! {

/// Whether `c` may occur in Morse code: a dot, a dash, the word separator
/// `/` or a space.
pub open spec fn morse_sign(c: char) -> bool {
    c == '.' || c == '-' || c == '/' || c == ' '
}

/// Whether `c` marks Morse code: a dot, a dash or the word separator `/`.
pub open spec fn morse_mark(c: char) -> bool {
    c == '.' || c == '-' || c == '/'
}

/// Whether `text` is made of Morse signs only. The empty text is.
pub open spec fn all_morse(text: Seq<char>) -> bool {
    forall|i: int| 0 <= i < text.len() ==> morse_sign(#[trigger] text[i])
}

/// Whether `text` holds at least one Morse mark.
pub open spec fn any_morse(text: Seq<char>) -> bool {
    exists|i: int| 0 <= i < text.len() && morse_mark(#[trigger] text[i])
}

/// The codes of the characters of `text`, in order, each followed by a
/// space. A character without a code adds nothing.
pub open spec fn spaced_codes(text: Seq<char>) -> Seq<char>
    decreases text.len(),
{
    if text.len() == 0 {
        Seq::<char>::empty()
    } else {
        let before = spaced_codes(text.drop_last());
        match code_of(text.last()) {
            Some(code) => before + code.push(' '),
            None => before,
        }
    }
}

/// The Morse code of `text`: the codes of its characters, separated by
/// single spaces.
pub open spec fn encoded(text: Seq<char>) -> Seq<char> {
    trimmed(spaced_codes(text))
}

/// The characters that `codes` stand for, in order. A token that is no code
/// of the table adds nothing.
pub open spec fn letters(codes: Seq<Seq<char>>) -> Seq<char>
    decreases codes.len(),
{
    if codes.len() == 0 {
        Seq::<char>::empty()
    } else {
        let before = letters(codes.drop_last());
        match character_of(codes.last()) {
            Some(c) => before.push(c),
            None => before,
        }
    }
}

/// The text of one word group: the characters of its tokens, followed by a
/// space.
pub open spec fn group_text(group: Seq<char>) -> Seq<char> {
    letters(tokens(group)).push(' ')
}

/// The texts of the word groups `groups`, one after the other.
pub open spec fn groups_text(groups: Seq<Seq<char>>) -> Seq<char>
    decreases groups.len(),
{
    if groups.len() == 0 {
        Seq::<char>::empty()
    } else {
        groups_text(groups.drop_last()) + group_text(groups.last())
    }
}

/// The text of the Morse code `morse`: its word groups, which `/` separates,
/// decoded token by token and separated by single spaces.
pub open spec fn decoded(morse: Seq<char>) -> Seq<char> {
    trimmed(groups_text(pieces(morse, '/')))
}

/// The translation of one word: decoded where it is made of Morse signs
/// only, encoded otherwise.
pub open spec fn word_text(word: Seq<char>) -> Seq<char> {
    if all_morse(word) {
        decoded(word)
    } else {
        encoded(word)
    }
}

/// The translations of the words `words`, each followed by a space.
pub open spec fn words_text(words: Seq<Seq<char>>) -> Seq<char>
    decreases words.len(),
{
    if words.len() == 0 {
        Seq::<char>::empty()
    } else {
        words_text(words.drop_last()) + word_text(words.last()).push(' ')
    }
}

/// The translation of `text`: each of its words, which single spaces
/// separate, translated by itself.
pub open spec fn translated(text: Seq<char>) -> Seq<char> {
    trimmed(words_text(pieces(text, ' ')))
}

/// The characters of `text` that have a code, in order.
pub open spec fn known(text: Seq<char>) -> Seq<char> {
    text.filter(|c: char| code_of(c) is Some)
}

/// Whether `text` is written with characters of the table only and neither
/// begins nor ends with a space.
pub open spec fn plain(text: Seq<char>) -> bool {
    &&& forall|i: int| 0 <= i < text.len() ==> code_of(#[trigger] text[i]) is Some
    &&& text.len() > 0 ==> text.first() != ' ' && text.last() != ' '
}

/// What the Morse code `morse` decodes to before the last space is added:
/// the texts of all word groups but the last, and the characters of the
/// last.
spec fn decoded_so_far(morse: Seq<char>) -> Seq<char> {
    let groups = pieces(morse, '/');
    groups_text(groups.drop_last()) + letters(tokens(groups.last()))
}

/// The spaced codes of a text of table characters decode to that text, and
/// their last word group is empty or ends with a space.
proof fn lemma_spaced_codes_decode(text: Seq<char>)
    requires
        forall|i: int| 0 <= i < text.len() ==> code_of(#[trigger] text[i]) is Some,
    ensures
        decoded_so_far(spaced_codes(text)) == text,
        pieces(spaced_codes(text), '/').len() >= 1,
        ({
            let open = pieces(spaced_codes(text), '/').last();
            open.len() == 0 || open.last() == ' '
        }),
        text.len() > 0 ==> spaced_codes(text).len() > 0 && spaced_codes(text).last() == ' ',
        text.len() > 0 && text.first() != ' ' ==> !whitespace(spaced_codes(text).first()),
        text.len() > 0 && text.last() != ' ' ==> spaced_codes(text).len() >= 2 && !whitespace(
            spaced_codes(text)[spaced_codes(text).len() - 2],
        ),
    decreases text.len(),
{
    let morse = spaced_codes(text);
    lemma_pieces_nonempty(morse, '/');
    if text.len() > 0 {
        let shorter = text.drop_last();
        let c = text.last();
        let code = code_of(c)->0;
        lemma_spaced_codes_decode(shorter);
        lemma_code_shape(c);
        let before = spaced_codes(shorter);
        let groups = pieces(before, '/');
        let closed = groups.drop_last();
        let open = groups.last();
        assert(morse.drop_last() == before + code);
        if c == ' ' {
            // The separator closes the open group, and the space after it
            // opens the next one.
            assert((before + code).drop_last() == before);
            assert(pieces(before + code, '/') == groups.push(Seq::<char>::empty()));
            assert(pieces(morse, '/') == groups.push(seq![' ']));
            assert(groups.push(seq![' ']).drop_last() == groups);
            assert(tokens(seq![' ']) == Seq::<Seq<char>>::empty()) by {
                assert(tokens(seq![' '].drop_last()).len() == 0);
            }
            assert(groups_text(groups) == shorter.push(' ')) by {
                assert(groups_text(closed) + letters(tokens(open)).push(' ') == (groups_text(closed)
                    + letters(tokens(open))).push(' '));
            }
        } else {
            // The code and the space after it lengthen the open group by
            // one token.
            lemma_pieces_extend(before, code, '/');
            let last = (open + code).push(' ');
            assert(pieces(morse, '/') == closed.push(last));
            assert(closed.push(last).drop_last() == closed);
            assert(tokens(last) == tokens(open + code)) by {
                assert(last.drop_last() == open + code);
            }
            lemma_tokens_extend(open, code);
            let codes = tokens(open).push(code);
            assert(letters(codes) == letters(tokens(open)).push(c)) by {
                lemma_table_bijective(c, code);
                assert(codes.drop_last() == tokens(open));
            }
            assert(groups_text(closed) + letters(tokens(open)).push(c) == (groups_text(closed)
                + letters(tokens(open))).push(c));
        }
    }
}

/// Decoding undoes encoding: a text written with characters of the table,
/// which neither begins nor ends with a space, is what its Morse code
/// decodes to. Spaces at either end are not given back: the code of a space
/// is the word separator, and a separator at an end decodes to nothing.
pub proof fn lemma_round_trip_text(text: Seq<char>)
    requires
        plain(text),
    ensures
        decoded(encoded(text)) == text,
{
    let spaced = spaced_codes(text);
    lemma_spaced_codes_decode(text);
    if text.len() == 0 {
        assert(groups_text(pieces(spaced, '/')) == seq![' ']);
        lemma_trimmed_blank(' ');
    } else {
        // Trimming takes the last space away, and with it only the space
        // that ends the last word group.
        let morse = spaced.drop_last();
        lemma_trimmed_exact(morse, ' ');
        let groups = pieces(spaced, '/');
        let before = pieces(morse, '/');
        lemma_pieces_nonempty(morse, '/');
        assert(groups.drop_last() == before.drop_last());
        assert(tokens(groups.last()) == tokens(before.last())) by {
            assert(groups.last().drop_last() == before.last());
        }
        assert(groups_text(before) == text.push(' ')) by {
            assert(groups_text(before.drop_last()) + letters(tokens(before.last())).push(' ') == (
            groups_text(before.drop_last()) + letters(tokens(before.last()))).push(' '));
        }
        lemma_trimmed_exact(text, ' ');
    }
}

/// Decoding undoes encoding, character by character: the Morse code of a
/// single character of the table is its code, and decodes to that character.
/// The space is the exception: its code is the word separator, which decodes
/// to nothing.
pub proof fn lemma_round_trip(c: char)
    requires
        code_of(c) is Some,
        c != ' ',
    ensures
        encoded(seq![c]) == code_of(c)->0,
        decoded(encoded(seq![c])) == seq![c],
{
    let code = code_of(c)->0;
    let text = seq![c];
    lemma_code_shape(c);
    assert(spaced_codes(text) == code.push(' ')) by {
        assert(spaced_codes(text.drop_last()) == Seq::<char>::empty());
    }
    lemma_trimmed_exact(code, ' ');
    lemma_round_trip_text(text);
}

/// Characters without a code are dropped by encoding: a text has the Morse
/// code of what is left of it when they are taken out.
pub proof fn lemma_encoded_drops_unknown(text: Seq<char>)
    ensures
        spaced_codes(text) == spaced_codes(known(text)),
        encoded(text) == encoded(known(text)),
    decreases text.len(),
{
    reveal(Seq::filter);
    if text.len() > 0 {
        lemma_encoded_drops_unknown(text.drop_last());
        if code_of(text.last()) is Some {
            let kept = known(text.drop_last()).push(text.last());
            assert(kept.drop_last() == known(text.drop_last()));
        }
    }
}

/// A text in which no character has a code has the empty Morse code.
pub proof fn lemma_encoded_nothing_known(text: Seq<char>)
    requires
        forall|i: int| 0 <= i < text.len() ==> code_of(#[trigger] text[i]) is None,
    ensures
        encoded(text) == Seq::<char>::empty(),
    decreases text.len(),
{
    if text.len() > 0 {
        lemma_encoded_nothing_known(text.drop_last());
    }
}

/// A text without a space is a single word: it is translated as a whole,
/// decoded where it is made of Morse signs only and encoded otherwise.
pub proof fn lemma_translated_single_word(text: Seq<char>)
    requires
        forall|i: int| 0 <= i < text.len() ==> text[i] != ' ',
    ensures
        translated(text) == word_text(text),
{
    let word = word_text(text);
    lemma_pieces_extend(Seq::<char>::empty(), text, ' ');
    assert(Seq::<char>::empty() + text == text);
    assert(pieces(text, ' ') == seq![text]);
    assert(words_text(seq![text]) == word.push(' ')) by {
        assert(words_text(seq![text].drop_last()) == Seq::<char>::empty());
    }
    if all_morse(text) {
        lemma_trimmed_ends(groups_text(pieces(text, '/')));
    } else {
        lemma_trimmed_ends(spaced_codes(text));
    }
    if word.len() > 0 {
        lemma_trimmed_exact(word, ' ');
    } else {
        assert(word.push(' ') == seq![' ']);
        lemma_trimmed_blank(' ');
    }
}

/// Each character of the spaced codes of a text is a Morse sign.
proof fn lemma_spaced_codes_are_morse(text: Seq<char>)
    ensures
        all_morse(spaced_codes(text)),
    decreases text.len(),
{
    if text.len() > 0 {
        lemma_spaced_codes_are_morse(text.drop_last());
        if code_of(text.last()) is Some {
            lemma_code_shape(text.last());
        }
    }
}

/// Whatever the text, its Morse code is made of Morse signs only.
pub proof fn lemma_encoded_is_morse(text: Seq<char>)
    ensures
        all_morse(encoded(text)),
{
    lemma_spaced_codes_are_morse(text);
    lemma_trimmed_is_part(spaced_codes(text));
}

/// Each character that a sequence of tokens stands for has a code.
proof fn lemma_letters_are_known(codes: Seq<Seq<char>>)
    ensures
        forall|i: int|
            0 <= i < letters(codes).len() ==> code_of(#[trigger] letters(codes)[i]) is Some,
    decreases codes.len(),
{
    if codes.len() > 0 {
        lemma_letters_are_known(codes.drop_last());
        if character_of(codes.last()) is Some {
            lemma_table_bijective(character_of(codes.last())->0, codes.last());
        }
    }
}

/// Each character of the texts of word groups has a code.
proof fn lemma_groups_text_is_known(groups: Seq<Seq<char>>)
    ensures
        forall|i: int|
            0 <= i < groups_text(groups).len() ==> code_of(#[trigger] groups_text(groups)[i])
                is Some,
    decreases groups.len(),
{
    if groups.len() > 0 {
        lemma_groups_text_is_known(groups.drop_last());
        lemma_letters_are_known(tokens(groups.last()));
    }
}

/// Whatever the Morse code, the text it decodes to is written with
/// characters of the table only.
pub proof fn lemma_decoded_is_known(morse: Seq<char>)
    ensures
        forall|i: int|
            0 <= i < decoded(morse).len() ==> code_of(#[trigger] decoded(morse)[i]) is Some,
{
    lemma_groups_text_is_known(pieces(morse, '/'));
    lemma_trimmed_is_part(groups_text(pieces(morse, '/')));
}

} // verus!
