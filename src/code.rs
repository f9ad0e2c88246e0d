use vstd::prelude::*;

verus! {

/// One signal of a Morse letter.
#[derive(Clone, Copy, Debug, PartialEq, Eq, Structural)]
pub enum MorseSymbol {
    Dot,
    Dash,
}

/// The character that stands for a symbol in rendered text.
pub open spec fn symbol_char(s: MorseSymbol) -> char {
    match s {
        MorseSymbol::Dot => '.',
        MorseSymbol::Dash => '-',
    }
}

/// The text of a letter: one `.` or `-` per symbol.
pub open spec fn symbols_text(s: Seq<MorseSymbol>) -> Seq<char> {
    s.map_values(|x: MorseSymbol| symbol_char(x))
}

/// One element of an encoded text: the code of a character, or the gap
/// that a space leaves between words.
#[derive(Clone, Debug)]
pub enum MorseElement {
    Letter(Vec<MorseSymbol>),
    WordGap,
}

impl View for MorseElement {
    /// A letter is seen as its symbols, a word gap as `None`.
    type V = Option<Seq<MorseSymbol>>;

    open spec fn view(&self) -> Option<Seq<MorseSymbol>> {
        match self {
            MorseElement::Letter(v) => Some(v@),
            MorseElement::WordGap => None,
        }
    }
}

} // verus!

verus! {

/// Joins parts with one space between neighbours.
pub open spec fn join(parts: Seq<Seq<char>>) -> Seq<char>
    decreases parts.len(),
{
    if parts.len() == 0 {
        Seq::empty()
    } else if parts.len() == 1 {
        parts[0]
    } else {
        join(parts.drop_last()) + seq![' '] + parts.last()
    }
}

/// How an element is rendered: a letter as its symbols; a word gap as `/`
/// in the readable form and as nothing in the compact one.
pub open spec fn part_text(e: Option<Seq<MorseSymbol>>, readable: bool) -> Seq<char> {
    match e {
        Some(s) => symbols_text(s),
        None => if readable { seq!['/'] } else { Seq::empty() },
    }
}

pub open spec fn parts_text(m: Seq<Option<Seq<MorseSymbol>>>, readable: bool) -> Seq<Seq<char>> {
    m.map_values(|e: Option<Seq<MorseSymbol>>| part_text(e, readable))
}

/// Letters separated by a space, words by ` / `: `.... .. / - .... . .-. .`.
pub open spec fn readable_text(m: Seq<Option<Seq<MorseSymbol>>>) -> Seq<char> {
    join(parts_text(m, true))
}

/// Letters separated by a space, a word gap adding one more space:
/// `.... ..  - .... . .-. .`. Each space stands for a gap.
pub open spec fn compact_text(m: Seq<Option<Seq<MorseSymbol>>>) -> Seq<char> {
    join(parts_text(m, false))
}

/// An encoded text: letters and word gaps, in the order of the source text.
#[derive(Clone, Debug)]
pub struct MorseString {
    elements: Vec<MorseElement>,
}

impl View for MorseString {
    type V = Seq<Option<Seq<MorseSymbol>>>;

    closed spec fn view(&self) -> Seq<Option<Seq<MorseSymbol>>> {
        self.elements@.map_values(|e: MorseElement| e@)
    }
}

impl MorseString {
    /// Every letter has at least one symbol.
    pub open spec fn wf(&self) -> bool {
        forall|i: int| 0 <= i < self@.len() && #[trigger] self@[i] is Some ==> self@[i]->0.len() > 0
    }

    pub(crate) fn from_elements(elements: Vec<MorseElement>) -> (r: MorseString)
        ensures
            r@ == elements@.map_values(|e: MorseElement| e@),
    {
        MorseString { elements }
    }

    /// The elements, in order.
    pub fn elements(&self) -> (r: &Vec<MorseElement>)
        ensures
            r@.map_values(|e: MorseElement| e@) == self@,
    {
        &self.elements
    }

    /// The number of elements.
    pub fn len(&self) -> (r: usize)
        ensures
            r == self@.len(),
    {
        self.elements.len()
    }

    /// Whether there is no element.
    pub fn is_empty(&self) -> (r: bool)
        ensures
            r == (self@.len() == 0),
    {
        self.elements.len() == 0
    }

    /// The characters of either rendering.
    pub(crate) fn render_chars(&self, readable: bool) -> (r: Vec<char>)
        ensures
            r@ == join(parts_text(self@, readable)),
    {
        let ghost parts = parts_text(self@, readable);
        let mut out: Vec<char> = Vec::new();
        let n = self.elements.len();
        let mut i: usize = 0;
        while i < n
            invariant
                n == self.elements@.len(),
                parts.len() == n,
                parts == parts_text(self@, readable),
                0 <= i <= n,
                out@ == join(parts.take(i as int)),
            decreases n - i,
        {
            let ghost before = out@;
            if i > 0 {
                out.push(' ');
            }
            let ghost start = out@;
            match &self.elements[i] {
                MorseElement::Letter(symbols) => {
                    let mut j: usize = 0;
                    while j < symbols.len()
                        invariant
                            0 <= j <= symbols@.len(),
                            out@ == start + symbols_text(symbols@.take(j as int)),
                        decreases symbols@.len() - j,
                    {
                        let c = match symbols[j] {
                            MorseSymbol::Dot => '.',
                            MorseSymbol::Dash => '-',
                        };
                        out.push(c);
                        proof {
                            assert(symbols_text(symbols@.take(j + 1)) =~= symbols_text(
                                symbols@.take(j as int),
                            ).push(c));
                        }
                        j += 1;
                    }
                    assert(symbols@.take(j as int) =~= symbols@);
                },
                MorseElement::WordGap => {
                    if readable {
                        out.push('/');
                    }
                },
            }
            proof {
                let t = parts.take(i + 1);
                assert(t.drop_last() =~= parts.take(i as int));
                assert(out@ =~= start + parts[i as int]);
                if i == 0 {
                    assert(out@ =~= t[0]);
                } else {
                    assert(out@ =~= before + seq![' '] + t.last());
                }
            }
            i += 1;
        }
        assert(parts.take(n as int) =~= parts);
        out
    }

    /// The readable form, for display: `... --- ...` for `SOS`, and a `/`
    /// for each word gap.
    pub fn render_readable(&self) -> (r: String)
        ensures
            r@ == readable_text(self@),
    {
        let v = self.render_chars(true);
        crate::text::string_of(&v)
    }

    /// The compact form: `.` and `-` for the symbols, a space for each gap.
    pub fn render_compact(&self) -> (r: String)
        ensures
            r@ == compact_text(self@),
    {
        let v = self.render_chars(false);
        crate::text::string_of(&v)
    }
}

} // verus!
