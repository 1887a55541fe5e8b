//! The symbol table: the fixed correspondence between characters and their
//! Morse codes.
//!
//! A code is a non-empty sequence of dots and dashes. The one exception is the
//! space, whose code is the word separator `/`. No two characters share a
//! code, so the table can be read in both directions.

use vstd::prelude::*;

verus! {

/// One line of the symbol table: a character and its Morse code.
#[derive(Debug)]
pub struct SymbolEntry {
    pub character: char,
    pub code: String,
}

impl View for SymbolEntry {
    type V = (char, Seq<char>);

    /// The entry as a pair: the character, and the signs of its code.
    open spec fn view(&self) -> (char, Seq<char>) {
        (self.character, self.code@)
    }
}

/// The number of entries of the table.
pub const TABLE_SIZE: usize = 55;

/// The Morse code of `c`, if the table has one. The table holds the capital
/// letters, the digits, eighteen punctuation marks and the space; every other
/// character, the small letters among them, has no code.
pub open spec fn code_of(c: char) -> Option<Seq<char>> {
    match c {
        'A' => Some(seq!['.', '-']),
        'B' => Some(seq!['-', '.', '.', '.']),
        'C' => Some(seq!['-', '.', '-', '.']),
        'D' => Some(seq!['-', '.', '.']),
        'E' => Some(seq!['.']),
        'F' => Some(seq!['.', '.', '-', '.']),
        'G' => Some(seq!['-', '-', '.']),
        'H' => Some(seq!['.', '.', '.', '.']),
        'I' => Some(seq!['.', '.']),
        'J' => Some(seq!['.', '-', '-', '-']),
        'K' => Some(seq!['-', '.', '-']),
        'L' => Some(seq!['.', '-', '.', '.']),
        'M' => Some(seq!['-', '-']),
        'N' => Some(seq!['-', '.']),
        'O' => Some(seq!['-', '-', '-']),
        'P' => Some(seq!['.', '-', '-', '.']),
        'Q' => Some(seq!['-', '-', '.', '-']),
        'R' => Some(seq!['.', '-', '.']),
        'S' => Some(seq!['.', '.', '.']),
        'T' => Some(seq!['-']),
        'U' => Some(seq!['.', '.', '-']),
        'V' => Some(seq!['.', '.', '.', '-']),
        'W' => Some(seq!['.', '-', '-']),
        'X' => Some(seq!['-', '.', '.', '-']),
        'Y' => Some(seq!['-', '.', '-', '-']),
        'Z' => Some(seq!['-', '-', '.', '.']),
        '0' => Some(seq!['-', '-', '-', '-', '-']),
        '1' => Some(seq!['.', '-', '-', '-', '-']),
        '2' => Some(seq!['.', '.', '-', '-', '-']),
        '3' => Some(seq!['.', '.', '.', '-', '-']),
        '4' => Some(seq!['.', '.', '.', '.', '-']),
        '5' => Some(seq!['.', '.', '.', '.', '.']),
        '6' => Some(seq!['-', '.', '.', '.', '.']),
        '7' => Some(seq!['-', '-', '.', '.', '.']),
        '8' => Some(seq!['-', '-', '-', '.', '.']),
        '9' => Some(seq!['-', '-', '-', '-', '.']),
        ',' => Some(seq!['-', '-', '.', '.', '-', '-']),
        '.' => Some(seq!['.', '-', '.', '-', '.', '-']),
        '?' => Some(seq!['.', '.', '-', '-', '.', '.']),
        '\'' => Some(seq!['.', '-', '-', '-', '-', '.']),
        '!' => Some(seq!['-', '.', '-', '.', '-', '-']),
        '/' => Some(seq!['-', '.', '.', '-', '.']),
        '(' => Some(seq!['-', '.', '-', '-', '.']),
        ')' => Some(seq!['-', '.', '-', '-', '.', '-']),
        '&' => Some(seq!['.', '-', '.', '.', '.']),
        ':' => Some(seq!['-', '-', '-', '.', '.', '.']),
        ';' => Some(seq!['-', '.', '-', '.', '-', '.']),
        '=' => Some(seq!['-', '.', '.', '.', '-']),
        '+' => Some(seq!['.', '-', '.', '-', '.']),
        '-' => Some(seq!['-', '.', '.', '.', '.', '-']),
        '_' => Some(seq!['.', '.', '-', '-', '.', '-']),
        '"' => Some(seq!['.', '-', '.', '.', '-', '.']),
        '$' => Some(seq!['.', '.', '.', '-', '.', '.', '-']),
        '@' => Some(seq!['.', '-', '-', '.', '-', '.']),
        ' ' => Some(seq!['/']),
        _ => None,
    }
}

/// Whether `code` and `signs` are of the same length and agree in their
/// first seven places. No code of the table is longer than that, so for the
/// codes of the table this is equality.
pub open spec fn same_signs(code: Seq<char>, signs: Seq<char>) -> bool {
    &&& code.len() == signs.len()
    &&& signs.len() > 0 ==> code[0] == signs[0]
    &&& signs.len() > 1 ==> code[1] == signs[1]
    &&& signs.len() > 2 ==> code[2] == signs[2]
    &&& signs.len() > 3 ==> code[3] == signs[3]
    &&& signs.len() > 4 ==> code[4] == signs[4]
    &&& signs.len() > 5 ==> code[5] == signs[5]
    &&& signs.len() > 6 ==> code[6] == signs[6]
}

/// The character that `code` stands for, if the table has one: `code` is
/// held against each code of the table in turn.
pub open spec fn character_of(code: Seq<char>) -> Option<char> {
    if same_signs(code, seq!['.', '-']) {
        Some('A')
    } else if same_signs(code, seq!['-', '.', '.', '.']) {
        Some('B')
    } else if same_signs(code, seq!['-', '.', '-', '.']) {
        Some('C')
    } else if same_signs(code, seq!['-', '.', '.']) {
        Some('D')
    } else if same_signs(code, seq!['.']) {
        Some('E')
    } else if same_signs(code, seq!['.', '.', '-', '.']) {
        Some('F')
    } else if same_signs(code, seq!['-', '-', '.']) {
        Some('G')
    } else if same_signs(code, seq!['.', '.', '.', '.']) {
        Some('H')
    } else if same_signs(code, seq!['.', '.']) {
        Some('I')
    } else if same_signs(code, seq!['.', '-', '-', '-']) {
        Some('J')
    } else if same_signs(code, seq!['-', '.', '-']) {
        Some('K')
    } else if same_signs(code, seq!['.', '-', '.', '.']) {
        Some('L')
    } else if same_signs(code, seq!['-', '-']) {
        Some('M')
    } else if same_signs(code, seq!['-', '.']) {
        Some('N')
    } else if same_signs(code, seq!['-', '-', '-']) {
        Some('O')
    } else if same_signs(code, seq!['.', '-', '-', '.']) {
        Some('P')
    } else if same_signs(code, seq!['-', '-', '.', '-']) {
        Some('Q')
    } else if same_signs(code, seq!['.', '-', '.']) {
        Some('R')
    } else if same_signs(code, seq!['.', '.', '.']) {
        Some('S')
    } else if same_signs(code, seq!['-']) {
        Some('T')
    } else if same_signs(code, seq!['.', '.', '-']) {
        Some('U')
    } else if same_signs(code, seq!['.', '.', '.', '-']) {
        Some('V')
    } else if same_signs(code, seq!['.', '-', '-']) {
        Some('W')
    } else if same_signs(code, seq!['-', '.', '.', '-']) {
        Some('X')
    } else if same_signs(code, seq!['-', '.', '-', '-']) {
        Some('Y')
    } else if same_signs(code, seq!['-', '-', '.', '.']) {
        Some('Z')
    } else if same_signs(code, seq!['-', '-', '-', '-', '-']) {
        Some('0')
    } else if same_signs(code, seq!['.', '-', '-', '-', '-']) {
        Some('1')
    } else if same_signs(code, seq!['.', '.', '-', '-', '-']) {
        Some('2')
    } else if same_signs(code, seq!['.', '.', '.', '-', '-']) {
        Some('3')
    } else if same_signs(code, seq!['.', '.', '.', '.', '-']) {
        Some('4')
    } else if same_signs(code, seq!['.', '.', '.', '.', '.']) {
        Some('5')
    } else if same_signs(code, seq!['-', '.', '.', '.', '.']) {
        Some('6')
    } else if same_signs(code, seq!['-', '-', '.', '.', '.']) {
        Some('7')
    } else if same_signs(code, seq!['-', '-', '-', '.', '.']) {
        Some('8')
    } else if same_signs(code, seq!['-', '-', '-', '-', '.']) {
        Some('9')
    } else if same_signs(code, seq!['-', '-', '.', '.', '-', '-']) {
        Some(',')
    } else if same_signs(code, seq!['.', '-', '.', '-', '.', '-']) {
        Some('.')
    } else if same_signs(code, seq!['.', '.', '-', '-', '.', '.']) {
        Some('?')
    } else if same_signs(code, seq!['.', '-', '-', '-', '-', '.']) {
        Some('\'')
    } else if same_signs(code, seq!['-', '.', '-', '.', '-', '-']) {
        Some('!')
    } else if same_signs(code, seq!['-', '.', '.', '-', '.']) {
        Some('/')
    } else if same_signs(code, seq!['-', '.', '-', '-', '.']) {
        Some('(')
    } else if same_signs(code, seq!['-', '.', '-', '-', '.', '-']) {
        Some(')')
    } else if same_signs(code, seq!['.', '-', '.', '.', '.']) {
        Some('&')
    } else if same_signs(code, seq!['-', '-', '-', '.', '.', '.']) {
        Some(':')
    } else if same_signs(code, seq!['-', '.', '-', '.', '-', '.']) {
        Some(';')
    } else if same_signs(code, seq!['-', '.', '.', '.', '-']) {
        Some('=')
    } else if same_signs(code, seq!['.', '-', '.', '-', '.']) {
        Some('+')
    } else if same_signs(code, seq!['-', '.', '.', '.', '.', '-']) {
        Some('-')
    } else if same_signs(code, seq!['.', '.', '-', '-', '.', '-']) {
        Some('_')
    } else if same_signs(code, seq!['.', '-', '.', '.', '-', '.']) {
        Some('"')
    } else if same_signs(code, seq!['.', '.', '.', '-', '.', '.', '-']) {
        Some('$')
    } else if same_signs(code, seq!['.', '-', '-', '.', '-', '.']) {
        Some('@')
    } else if same_signs(code, seq!['/']) {
        Some(' ')
    } else {
        None
    }
}

/// The place of `c` in the table, counted from zero in the order in which
/// the table lists its characters; `-1` for a character without a code.
pub open spec fn slot(c: char) -> int {
    match c {
        'A' => 0,
        'B' => 1,
        'C' => 2,
        'D' => 3,
        'E' => 4,
        'F' => 5,
        'G' => 6,
        'H' => 7,
        'I' => 8,
        'J' => 9,
        'K' => 10,
        'L' => 11,
        'M' => 12,
        'N' => 13,
        'O' => 14,
        'P' => 15,
        'Q' => 16,
        'R' => 17,
        'S' => 18,
        'T' => 19,
        'U' => 20,
        'V' => 21,
        'W' => 22,
        'X' => 23,
        'Y' => 24,
        'Z' => 25,
        '0' => 26,
        '1' => 27,
        '2' => 28,
        '3' => 29,
        '4' => 30,
        '5' => 31,
        '6' => 32,
        '7' => 33,
        '8' => 34,
        '9' => 35,
        ',' => 36,
        '.' => 37,
        '?' => 38,
        '\'' => 39,
        '!' => 40,
        '/' => 41,
        '(' => 42,
        ')' => 43,
        '&' => 44,
        ':' => 45,
        ';' => 46,
        '=' => 47,
        '+' => 48,
        '-' => 49,
        '_' => 50,
        '"' => 51,
        '$' => 52,
        '@' => 53,
        ' ' => 54,
        _ => -1,
    }
}

/// Whether `c` is one of the two signs that Morse codes are made of.
pub open spec fn is_signal(c: char) -> bool {
    c == '.' || c == '-'
}

/// Every code of the table is a non-empty sequence of dots and dashes, but
/// for the code of the space, which is the single character `/`.
pub proof fn lemma_code_shape(c: char)
    requires
        code_of(c) is Some,
    ensures
        code_of(c)->0.len() >= 1,
        c == ' ' ==> code_of(c)->0 == seq!['/'],
        c != ' ' ==> forall|i: int|
            0 <= i < code_of(c)->0.len() ==> is_signal(#[trigger] code_of(c)->0[i]),
{
}

/// The table is a one-to-one correspondence: `code` is the code of `c`
/// exactly when `c` is the character of `code`.
pub proof fn lemma_table_bijective(c: char, code: Seq<char>)
    ensures
        code_of(c) == Some(code) <==> character_of(code) == Some(c),
{
    if character_of(code) == Some(c) {
        assert(code =~= code_of(c)->0);
    }
}

} // verus!
