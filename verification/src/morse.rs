//! The translator: lookups in the symbol table, encoding of text into Morse
//! code, decoding of Morse code into text, and translation of mixed input.

use crate::codec::{
    all_morse, any_morse, decoded, encoded, groups_text, letters, morse_mark, morse_sign,
    spaced_codes, translated, words_text,
};
use crate::std_specs::duration_nanos;
use crate::table::{character_of, code_of, lemma_table_bijective, slot, SymbolEntry, TABLE_SIZE};
use crate::text::{append, chars_of, pieces, split_on, split_whitespace, string_of, trim, views};
use std::time::Duration;
use vstd::prelude::*;

verus! {

/// A Morse translator: the symbol table, the pause made after each signal
/// when Morse code is played, and the sampling rate of exported audio.
#[derive(Debug)]
pub struct Morse {
    morse_code: Vec<SymbolEntry>,
    duration: Duration,
    sampling_rate: u32,
}

impl Morse {
    /// The table holds one entry for each character that has a code, at the
    /// place that `slot` gives, and each entry pairs a character with its
    /// code.
    #[verifier::type_invariant]
    spec fn well_formed(self) -> bool {
        &&& self.morse_code@.len() == TABLE_SIZE
        &&& forall|i: int|
            0 <= i < TABLE_SIZE ==> code_of((#[trigger] self.morse_code@[i])@.0) == Some(
                self.morse_code@[i]@.1,
            )
        &&& forall|c: char|
            0 <= #[trigger] slot(c) < TABLE_SIZE ==> self.morse_code@[slot(c)]@.0 == c
    }

    /// The pause made after each signal when Morse code is played.
    pub closed spec fn pause(&self) -> Duration {
        self.duration
    }

    /// The sampling rate of exported audio, in hertz.
    pub closed spec fn rate(&self) -> u32 {
        self.sampling_rate
    }

    /// Makes a translator with the full symbol table, a pause of half a
    /// second and a sampling rate of 44100 Hz.
    pub fn new() -> (morse: Morse)
        ensures
            duration_nanos(morse.pause()) == 500_000_000,
            morse.rate() == 44100,
    {
        let mut table: Vec<SymbolEntry> = Vec::new();
        table.push(SymbolEntry { character: 'A', code: ".-".to_string() });
        table.push(SymbolEntry { character: 'B', code: "-...".to_string() });
        table.push(SymbolEntry { character: 'C', code: "-.-.".to_string() });
        table.push(SymbolEntry { character: 'D', code: "-..".to_string() });
        table.push(SymbolEntry { character: 'E', code: ".".to_string() });
        table.push(SymbolEntry { character: 'F', code: "..-.".to_string() });
        table.push(SymbolEntry { character: 'G', code: "--.".to_string() });
        table.push(SymbolEntry { character: 'H', code: "....".to_string() });
        table.push(SymbolEntry { character: 'I', code: "..".to_string() });
        table.push(SymbolEntry { character: 'J', code: ".---".to_string() });
        table.push(SymbolEntry { character: 'K', code: "-.-".to_string() });
        table.push(SymbolEntry { character: 'L', code: ".-..".to_string() });
        table.push(SymbolEntry { character: 'M', code: "--".to_string() });
        table.push(SymbolEntry { character: 'N', code: "-.".to_string() });
        table.push(SymbolEntry { character: 'O', code: "---".to_string() });
        table.push(SymbolEntry { character: 'P', code: ".--.".to_string() });
        table.push(SymbolEntry { character: 'Q', code: "--.-".to_string() });
        table.push(SymbolEntry { character: 'R', code: ".-.".to_string() });
        table.push(SymbolEntry { character: 'S', code: "...".to_string() });
        table.push(SymbolEntry { character: 'T', code: "-".to_string() });
        table.push(SymbolEntry { character: 'U', code: "..-".to_string() });
        table.push(SymbolEntry { character: 'V', code: "...-".to_string() });
        table.push(SymbolEntry { character: 'W', code: ".--".to_string() });
        table.push(SymbolEntry { character: 'X', code: "-..-".to_string() });
        table.push(SymbolEntry { character: 'Y', code: "-.--".to_string() });
        table.push(SymbolEntry { character: 'Z', code: "--..".to_string() });
        table.push(SymbolEntry { character: '0', code: "-----".to_string() });
        table.push(SymbolEntry { character: '1', code: ".----".to_string() });
        table.push(SymbolEntry { character: '2', code: "..---".to_string() });
        table.push(SymbolEntry { character: '3', code: "...--".to_string() });
        table.push(SymbolEntry { character: '4', code: "....-".to_string() });
        table.push(SymbolEntry { character: '5', code: ".....".to_string() });
        table.push(SymbolEntry { character: '6', code: "-....".to_string() });
        table.push(SymbolEntry { character: '7', code: "--...".to_string() });
        table.push(SymbolEntry { character: '8', code: "---..".to_string() });
        table.push(SymbolEntry { character: '9', code: "----.".to_string() });
        table.push(SymbolEntry { character: ',', code: "--..--".to_string() });
        table.push(SymbolEntry { character: '.', code: ".-.-.-".to_string() });
        table.push(SymbolEntry { character: '?', code: "..--..".to_string() });
        table.push(SymbolEntry { character: '\'', code: ".----.".to_string() });
        table.push(SymbolEntry { character: '!', code: "-.-.--".to_string() });
        table.push(SymbolEntry { character: '/', code: "-..-.".to_string() });
        table.push(SymbolEntry { character: '(', code: "-.--.".to_string() });
        table.push(SymbolEntry { character: ')', code: "-.--.-".to_string() });
        table.push(SymbolEntry { character: '&', code: ".-...".to_string() });
        table.push(SymbolEntry { character: ':', code: "---...".to_string() });
        table.push(SymbolEntry { character: ';', code: "-.-.-.".to_string() });
        table.push(SymbolEntry { character: '=', code: "-...-".to_string() });
        table.push(SymbolEntry { character: '+', code: ".-.-.".to_string() });
        table.push(SymbolEntry { character: '-', code: "-....-".to_string() });
        table.push(SymbolEntry { character: '_', code: "..--.-".to_string() });
        table.push(SymbolEntry { character: '"', code: ".-..-.".to_string() });
        table.push(SymbolEntry { character: '$', code: "...-..-".to_string() });
        table.push(SymbolEntry { character: '@', code: ".--.-.".to_string() });
        table.push(SymbolEntry { character: ' ', code: "/".to_string() });
        proof {
            reveal_strlit(".-");
            reveal_strlit("-...");
            reveal_strlit("-.-.");
            reveal_strlit("-..");
            reveal_strlit(".");
            reveal_strlit("..-.");
            reveal_strlit("--.");
            reveal_strlit("....");
            reveal_strlit("..");
            reveal_strlit(".---");
            reveal_strlit("-.-");
            reveal_strlit(".-..");
            reveal_strlit("--");
            reveal_strlit("-.");
            reveal_strlit("---");
            reveal_strlit(".--.");
            reveal_strlit("--.-");
            reveal_strlit(".-.");
            reveal_strlit("...");
            reveal_strlit("-");
            reveal_strlit("..-");
            reveal_strlit("...-");
            reveal_strlit(".--");
            reveal_strlit("-..-");
            reveal_strlit("-.--");
            reveal_strlit("--..");
            reveal_strlit("-----");
            reveal_strlit(".----");
            reveal_strlit("..---");
            reveal_strlit("...--");
            reveal_strlit("....-");
            reveal_strlit(".....");
            reveal_strlit("-....");
            reveal_strlit("--...");
            reveal_strlit("---..");
            reveal_strlit("----.");
            reveal_strlit("--..--");
            reveal_strlit(".-.-.-");
            reveal_strlit("..--..");
            reveal_strlit(".----.");
            reveal_strlit("-.-.--");
            reveal_strlit("-..-.");
            reveal_strlit("-.--.");
            reveal_strlit("-.--.-");
            reveal_strlit(".-...");
            reveal_strlit("---...");
            reveal_strlit("-.-.-.");
            reveal_strlit("-...-");
            reveal_strlit(".-.-.");
            reveal_strlit("-....-");
            reveal_strlit("..--.-");
            reveal_strlit(".-..-.");
            reveal_strlit("...-..-");
            reveal_strlit(".--.-.");
            reveal_strlit("/");
            assert forall|i: int| 0 <= i < TABLE_SIZE implies code_of((#[trigger] table@[i])@.0)
                == Some(table@[i]@.1) by {
                assert(code_of(table@[i]@.0)->0 =~= table@[i]@.1);
            }
        }
        Morse { morse_code: table, duration: Duration::from_millis(500), sampling_rate: 44100 }
    }

    /// Looks up the Morse code of `ch`. The lookup tells capitals from small
    /// letters: only the characters of the table have a code.
    pub fn get_morse_code(&self, ch: char) -> (code: Option<&String>)
        ensures
            match code {
                Some(s) => code_of(ch) == Some(s@),
                None => code_of(ch) is None,
            },
    {
        proof {
            use_type_invariant(self);
        }
        let mut i: usize = 0;
        while i < self.morse_code.len()
            invariant
                self.well_formed(),
                i <= TABLE_SIZE,
                forall|j: int| 0 <= j < i ==> (#[trigger] self.morse_code@[j]).character != ch,
            decreases TABLE_SIZE - i,
        {
            if self.morse_code[i].character == ch {
                return Some(&self.morse_code[i].code);
            }
            i += 1;
        }
        assert(!(0 <= slot(ch) < TABLE_SIZE));
        None
    }

    /// Looks up the character that the Morse code `code` stands for.
    pub fn get_morse_character(&self, code: &str) -> (character: Option<char>)
        ensures
            character == character_of(code@),
    {
        proof {
            use_type_invariant(self);
        }
        let wanted = code.to_string();
        let mut i: usize = 0;
        while i < self.morse_code.len()
            invariant
                self.well_formed(),
                wanted@ == code@,
                i <= TABLE_SIZE,
                forall|j: int| 0 <= j < i ==> (#[trigger] self.morse_code@[j]).code@ != code@,
            decreases TABLE_SIZE - i,
        {
            if self.morse_code[i].code == wanted {
                proof {
                    lemma_table_bijective(self.morse_code@[i as int].character, code@);
                }
                return Some(self.morse_code[i].character);
            }
            i += 1;
        }
        proof {
            if character_of(code@) is Some {
                let c = character_of(code@)->0;
                lemma_table_bijective(c, code@);
                assert(self.morse_code@[slot(c)].code@ == code@);
            }
        }
        None
    }

    /// The Morse code of `text`, as characters.
    fn encode_chars(&self, text: &Vec<char>) -> (morse: Vec<char>)
        ensures
            morse@ == encoded(text@),
    {
        let mut spaced: Vec<char> = Vec::new();
        let mut i: usize = 0;
        while i < text.len()
            invariant
                i <= text.len(),
                spaced@ == spaced_codes(text@.take(i as int)),
            decreases text.len() - i,
        {
            assert(text@.take(i + 1).drop_last() == text@.take(i as int));
            if let Some(code) = self.get_morse_code(text[i]) {
                let signs = chars_of(code.as_str());
                append(&mut spaced, &signs);
                spaced.push(' ');
            }
            i += 1;
        }
        assert(text@.take(text@.len() as int) == text@);
        trim(&spaced)
    }

    /// The text of the Morse code `morse`, as characters.
    fn decode_chars(&self, morse: &Vec<char>) -> (text: Vec<char>)
        ensures
            text@ == decoded(morse@),
    {
        let groups = split_on(morse, '/');
        let mut spaced: Vec<char> = Vec::new();
        let mut g: usize = 0;
        while g < groups.len()
            invariant
                g <= groups.len(),
                views(groups@) == pieces(morse@, '/'),
                spaced@ == groups_text(views(groups@).take(g as int)),
            decreases groups.len() - g,
        {
            let codes = split_whitespace(&groups[g]);
            let ghost before = spaced@;
            let mut k: usize = 0;
            while k < codes.len()
                invariant
                    k <= codes.len(),
                    spaced@ == before + letters(views(codes@).take(k as int)),
                decreases codes.len() - k,
            {
                assert(views(codes@).take(k + 1).drop_last() == views(codes@).take(k as int));
                let code = string_of(&codes[k]);
                if let Some(c) = self.get_morse_character(code.as_str()) {
                    spaced.push(c);
                }
                k += 1;
            }
            spaced.push(' ');
            assert(views(codes@).take(codes@.len() as int) == views(codes@));
            assert(views(groups@).take(g + 1).drop_last() == views(groups@).take(g as int));
            g += 1;
        }
        assert(views(groups@).take(groups@.len() as int) == views(groups@));
        trim(&spaced)
    }

    /// Whether `text` is made of Morse signs only.
    fn is_morse_chars(text: &Vec<char>) -> (b: bool)
        ensures
            b == all_morse(text@),
    {
        let mut i: usize = 0;
        while i < text.len()
            invariant
                i <= text.len(),
                forall|j: int| 0 <= j < i ==> morse_sign(#[trigger] text@[j]),
            decreases text.len() - i,
        {
            let c = text[i];
            if !(c == '.' || c == '-' || c == '/' || c == ' ') {
                return false;
            }
            i += 1;
        }
        true
    }

    /// Encodes `text` into Morse code: the codes of its characters, separated
    /// by single spaces. Characters without a code are left out.
    pub fn encode(&self, text: &str) -> (morse: String)
        ensures
            morse@ == encoded(text@),
    {
        let chars = chars_of(text);
        let morse = self.encode_chars(&chars);
        string_of(&morse)
    }

    /// Decodes the Morse code `morse` into text. `/` separates the word
    /// groups, white space the codes within a group; the decoded groups are
    /// separated by single spaces. Tokens that are no code are left out.
    ///
    /// The code of the space is the separator itself, so a space at either
    /// end of a text is lost on the way: a Morse string of separators and
    /// blanks only decodes to the empty text, as the empty string does.
    pub fn decode(&self, morse: &str) -> (text: String)
        ensures
            text@ == decoded(morse@),
    {
        let chars = chars_of(morse);
        let text = self.decode_chars(&chars);
        string_of(&text)
    }

    /// Tells whether `text` is made of dots, dashes, `/` and spaces only.
    pub fn is_morse(&self, text: &str) -> (b: bool)
        ensures
            b == all_morse(text@),
    {
        let chars = chars_of(text);
        Self::is_morse_chars(&chars)
    }

    /// Tells whether `text` holds at least one dot, dash or `/`.
    pub fn contains_morse(&self, text: &str) -> (b: bool)
        ensures
            b == any_morse(text@),
    {
        let chars = chars_of(text);
        let mut i: usize = 0;
        while i < chars.len()
            invariant
                i <= chars.len(),
                chars@ == text@,
                forall|j: int| 0 <= j < i ==> !morse_mark(#[trigger] text@[j]),
            decreases chars.len() - i,
        {
            let c = chars[i];
            if c == '.' || c == '-' || c == '/' {
                return true;
            }
            i += 1;
        }
        false
    }

    /// Translates `text` word by word, the words being what single spaces
    /// separate: a word of Morse signs is decoded, any other word is encoded.
    /// The translated words are separated by single spaces.
    ///
    /// Each word is taken by itself. The codes of a Morse string are
    /// therefore decoded one by one, and the characters come out with a
    /// space between them, where [`Morse::decode`] would have put the
    /// characters of a word group together.
    pub fn translate(&self, text: &str) -> (translation: String)
        ensures
            translation@ == translated(text@),
    {
        let chars = chars_of(text);
        let words = split_on(&chars, ' ');
        let mut spaced: Vec<char> = Vec::new();
        let mut w: usize = 0;
        while w < words.len()
            invariant
                w <= words.len(),
                spaced@ == words_text(views(words@).take(w as int)),
            decreases words.len() - w,
        {
            assert(views(words@).take(w + 1).drop_last() == views(words@).take(w as int));
            let word = &words[w];
            let part = if Self::is_morse_chars(word) {
                self.decode_chars(word)
            } else {
                self.encode_chars(word)
            };
            append(&mut spaced, &part);
            spaced.push(' ');
            w += 1;
        }
        assert(views(words@).take(words@.len() as int) == views(words@));
        let trimmed = trim(&spaced);
        string_of(&trimmed)
    }

    /// The pause made after each signal when Morse code is played.
    pub fn duration(&self) -> (d: Duration)
        ensures
            d == self.pause(),
    {
        self.duration
    }

    /// The sampling rate of exported audio, in hertz.
    pub fn sampling_rate(&self) -> (r: u32)
        ensures
            r == self.rate(),
    {
        self.sampling_rate
    }

    /// Sets the pause made after each signal when Morse code is played.
    pub fn set_duration(&mut self, duration: Duration)
        ensures
            final(self).pause() == duration,
            final(self).rate() == old(self).rate(),
    {
        proof {
            use_type_invariant(&*self);
        }
        self.duration = duration;
    }

    /// Sets the sampling rate of exported audio, in hertz.
    pub fn set_sampling_rate(&mut self, sampling_rate: u32)
        ensures
            final(self).rate() == sampling_rate,
            final(self).pause() == old(self).pause(),
    {
        proof {
            use_type_invariant(&*self);
        }
        self.sampling_rate = sampling_rate;
    }
}

} // verus!
