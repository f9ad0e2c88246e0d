use vstd::prelude::*;
use crate::code::{MorseElement, MorseString, MorseSymbol};
use crate::table::{code_of, is_supported, lookup};

verus! {

/// Why a text could not be encoded.
#[derive(Clone, Copy, Debug, PartialEq, Eq, Structural)]
pub enum EncodingError {
    /// The first character of the text that is neither a space nor in the
    /// table.
    UnsupportedCharacter(char),
}

/// A character that the encoder accepts: a space, or one in the table.
pub open spec fn is_encodable(c: char) -> bool {
    c == ' ' || is_supported(c)
}

pub open spec fn all_encodable(s: Seq<char>) -> bool {
    forall|i: int| 0 <= i < s.len() ==> is_encodable(#[trigger] s[i])
}

/// The element for one character: a word gap for a space, else its code.
pub open spec fn element_of(c: char) -> Option<Seq<MorseSymbol>> {
    if c == ' ' {
        None
    } else {
        code_of(c)
    }
}

/// The encoding of a text whose characters are all encodable: one element
/// per character, in order. Runs of spaces are kept, one gap per space.
pub open spec fn encoded(s: Seq<char>) -> Seq<Option<Seq<MorseSymbol>>> {
    s.map_values(|c: char| element_of(c))
}

/// `c` is the first character of `s` that cannot be encoded.
pub open spec fn is_first_unencodable(s: Seq<char>, c: char) -> bool {
    exists|i: int|
        0 <= i < s.len() && #[trigger] s[i] == c && !is_encodable(c) && forall|j: int|
            0 <= j < i ==> is_encodable(#[trigger] s[j])
}

/// Encodes a text, letters in either case.
///
/// Succeeds exactly when every character is a space or has a code; the
/// error then names the first one that does not.
pub fn encode(text: &str) -> (r: Result<MorseString, EncodingError>)
    ensures
        r is Ok <==> all_encodable(text@),
        r matches Ok(m) ==> m@ == encoded(text@) && m.wf(),
        r matches Err(EncodingError::UnsupportedCharacter(c)) ==> is_first_unencodable(text@, c),
{
    let chars = crate::text::chars_of(text);
    let ghost s = text@;
    let mut elements: Vec<MorseElement> = Vec::new();
    let mut i: usize = 0;
    while i < chars.len()
        invariant
            chars@ == s,
            s == text@,
            0 <= i <= s.len(),
            elements@.len() == i,
            forall|j: int| 0 <= j < i ==> is_encodable(#[trigger] s[j]),
            forall|j: int| 0 <= j < i ==> #[trigger] elements@[j]@ == element_of(s[j]),
        decreases s.len() - i,
    {
        let c = chars[i];
        if c == ' ' {
            elements.push(MorseElement::WordGap);
        } else {
            match lookup(c) {
                Some(symbols) => {
                    elements.push(MorseElement::Letter(symbols));
                },
                None => {
                    proof {
                        assert(s[i as int] == c);
                        assert(!is_encodable(s[i as int]));
                        assert(is_first_unencodable(s, c));
                        assert(!all_encodable(s));
                    }
                    return Err(EncodingError::UnsupportedCharacter(c));
                },
            }
        }
        i += 1;
    }
    let m = MorseString::from_elements(elements);
    proof {
        assert(m@ =~= encoded(s));
        assert forall|k: int| 0 <= k < m@.len() && #[trigger] m@[k] is Some implies m@[k]->0.len()
            > 0 by {
            crate::table::lemma_code_length(s[k]);
        }
    }
    Ok(m)
}

} // verus!
