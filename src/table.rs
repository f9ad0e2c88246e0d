use vstd::prelude::*;
use crate::code::MorseSymbol;
use crate::code::MorseSymbol::{Dash, Dot};

verus! {

/// The Morse code of a character: letters (in either case), digits and a
/// few marks of punctuation. `None` for every other character, the space
/// included.
pub open spec fn code_of(c: char) -> Option<Seq<MorseSymbol>> {
    match c {
        'A' | 'a' => Some(seq![Dot, Dash]),
        'B' | 'b' => Some(seq![Dash, Dot, Dot, Dot]),
        'C' | 'c' => Some(seq![Dash, Dot, Dash, Dot]),
        'D' | 'd' => Some(seq![Dash, Dot, Dot]),
        'E' | 'e' => Some(seq![Dot]),
        'F' | 'f' => Some(seq![Dot, Dot, Dash, Dot]),
        'G' | 'g' => Some(seq![Dash, Dash, Dot]),
        'H' | 'h' => Some(seq![Dot, Dot, Dot, Dot]),
        'I' | 'i' => Some(seq![Dot, Dot]),
        'J' | 'j' => Some(seq![Dot, Dash, Dash, Dash]),
        'K' | 'k' => Some(seq![Dash, Dot, Dash]),
        'L' | 'l' => Some(seq![Dot, Dash, Dot, Dot]),
        'M' | 'm' => Some(seq![Dash, Dash]),
        'N' | 'n' => Some(seq![Dash, Dot]),
        'O' | 'o' => Some(seq![Dash, Dash, Dash]),
        'P' | 'p' => Some(seq![Dot, Dash, Dash, Dot]),
        'Q' | 'q' => Some(seq![Dash, Dash, Dot, Dash]),
        'R' | 'r' => Some(seq![Dot, Dash, Dot]),
        'S' | 's' => Some(seq![Dot, Dot, Dot]),
        'T' | 't' => Some(seq![Dash]),
        'U' | 'u' => Some(seq![Dot, Dot, Dash]),
        'V' | 'v' => Some(seq![Dot, Dot, Dot, Dash]),
        'W' | 'w' => Some(seq![Dot, Dash, Dash]),
        'X' | 'x' => Some(seq![Dash, Dot, Dot, Dash]),
        'Y' | 'y' => Some(seq![Dash, Dot, Dash, Dash]),
        'Z' | 'z' => Some(seq![Dash, Dash, Dot, Dot]),
        '0' => Some(seq![Dash, Dash, Dash, Dash, Dash]),
        '1' => Some(seq![Dot, Dash, Dash, Dash, Dash]),
        '2' => Some(seq![Dot, Dot, Dash, Dash, Dash]),
        '3' => Some(seq![Dot, Dot, Dot, Dash, Dash]),
        '4' => Some(seq![Dot, Dot, Dot, Dot, Dash]),
        '5' => Some(seq![Dot, Dot, Dot, Dot, Dot]),
        '6' => Some(seq![Dash, Dot, Dot, Dot, Dot]),
        '7' => Some(seq![Dash, Dash, Dot, Dot, Dot]),
        '8' => Some(seq![Dash, Dash, Dash, Dot, Dot]),
        '9' => Some(seq![Dash, Dash, Dash, Dash, Dot]),
        '.' => Some(seq![Dot, Dash, Dot, Dash, Dot, Dash]),
        ',' => Some(seq![Dash, Dash, Dot, Dot, Dash, Dash]),
        '?' => Some(seq![Dot, Dot, Dash, Dash, Dot, Dot]),
        '/' => Some(seq![Dash, Dot, Dot, Dash, Dot]),
        _ => None,
    }
}

/// A character with an entry in the table.
pub open spec fn is_supported(c: char) -> bool {
    code_of(c) is Some
}

/// Every code in the table has between one and six symbols.
pub proof fn lemma_code_length(c: char)
    requires
        is_supported(c),
    ensures
        1 <= code_of(c)->0.len() <= 6,
{
}

/// Looks a character up in the table.
pub fn lookup(c: char) -> (r: Option<Vec<MorseSymbol>>)
    ensures
        match r {
            Some(v) => code_of(c) == Some(v@),
            None => code_of(c) is None,
        },
{
    match c {
        'A' | 'a' => Some(vec![Dot, Dash]),
        'B' | 'b' => Some(vec![Dash, Dot, Dot, Dot]),
        'C' | 'c' => Some(vec![Dash, Dot, Dash, Dot]),
        'D' | 'd' => Some(vec![Dash, Dot, Dot]),
        'E' | 'e' => Some(vec![Dot]),
        'F' | 'f' => Some(vec![Dot, Dot, Dash, Dot]),
        'G' | 'g' => Some(vec![Dash, Dash, Dot]),
        'H' | 'h' => Some(vec![Dot, Dot, Dot, Dot]),
        'I' | 'i' => Some(vec![Dot, Dot]),
        'J' | 'j' => Some(vec![Dot, Dash, Dash, Dash]),
        'K' | 'k' => Some(vec![Dash, Dot, Dash]),
        'L' | 'l' => Some(vec![Dot, Dash, Dot, Dot]),
        'M' | 'm' => Some(vec![Dash, Dash]),
        'N' | 'n' => Some(vec![Dash, Dot]),
        'O' | 'o' => Some(vec![Dash, Dash, Dash]),
        'P' | 'p' => Some(vec![Dot, Dash, Dash, Dot]),
        'Q' | 'q' => Some(vec![Dash, Dash, Dot, Dash]),
        'R' | 'r' => Some(vec![Dot, Dash, Dot]),
        'S' | 's' => Some(vec![Dot, Dot, Dot]),
        'T' | 't' => Some(vec![Dash]),
        'U' | 'u' => Some(vec![Dot, Dot, Dash]),
        'V' | 'v' => Some(vec![Dot, Dot, Dot, Dash]),
        'W' | 'w' => Some(vec![Dot, Dash, Dash]),
        'X' | 'x' => Some(vec![Dash, Dot, Dot, Dash]),
        'Y' | 'y' => Some(vec![Dash, Dot, Dash, Dash]),
        'Z' | 'z' => Some(vec![Dash, Dash, Dot, Dot]),
        '0' => Some(vec![Dash, Dash, Dash, Dash, Dash]),
        '1' => Some(vec![Dot, Dash, Dash, Dash, Dash]),
        '2' => Some(vec![Dot, Dot, Dash, Dash, Dash]),
        '3' => Some(vec![Dot, Dot, Dot, Dash, Dash]),
        '4' => Some(vec![Dot, Dot, Dot, Dot, Dash]),
        '5' => Some(vec![Dot, Dot, Dot, Dot, Dot]),
        '6' => Some(vec![Dash, Dot, Dot, Dot, Dot]),
        '7' => Some(vec![Dash, Dash, Dot, Dot, Dot]),
        '8' => Some(vec![Dash, Dash, Dash, Dot, Dot]),
        '9' => Some(vec![Dash, Dash, Dash, Dash, Dot]),
        '.' => Some(vec![Dot, Dash, Dot, Dash, Dot, Dash]),
        ',' => Some(vec![Dash, Dash, Dot, Dot, Dash, Dash]),
        '?' => Some(vec![Dot, Dot, Dash, Dash, Dot, Dot]),
        '/' => Some(vec![Dash, Dot, Dot, Dash, Dot]),
        _ => None,
    }
}

} // verus!
