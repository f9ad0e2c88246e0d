use vstd::prelude::*;
use crate::code::{compact_text, MorseString, MorseSymbol};

verus! {

/// A signal of the playback, measured in ticks.
#[derive(Clone, Copy, Debug, PartialEq, Eq, Structural)]
pub enum TimedEvent {
    /// A tone that lasts the given number of ticks.
    Tone(u64),
    /// A silence that lasts the given number of ticks.
    Silence(u64),
}

/// The event for one character of the compact form: a dot is a tone of one
/// tick, a dash a tone of three, a gap a silence of one. Other characters
/// give nothing.
pub open spec fn event_of(c: char) -> Option<TimedEvent> {
    if c == '.' {
        Some(TimedEvent::Tone(1))
    } else if c == '-' {
        Some(TimedEvent::Tone(3))
    } else if c == ' ' {
        Some(TimedEvent::Silence(1))
    } else {
        None
    }
}

/// The events of a compact text, in order.
pub open spec fn events_of(cs: Seq<char>) -> Seq<TimedEvent>
    decreases cs.len(),
{
    if cs.len() == 0 {
        Seq::empty()
    } else {
        events_of(cs.drop_last()) + match event_of(cs.last()) {
            Some(e) => seq![e],
            None => Seq::empty(),
        }
    }
}

/// The full playback of an encoded text: the events of its compact form,
/// then one closing silence of one tick.
pub open spec fn playback(m: Seq<Option<Seq<MorseSymbol>>>) -> Seq<TimedEvent> {
    events_of(compact_text(m)) + seq![TimedEvent::Silence(1)]
}

impl TimedEvent {
    pub open spec fn spec_units(self) -> u64 {
        match self {
            TimedEvent::Tone(n) => n,
            TimedEvent::Silence(n) => n,
        }
    }

    /// The length of the event in ticks.
    pub fn units(&self) -> (r: u64)
        ensures
            r == self.spec_units(),
    {
        match self {
            TimedEvent::Tone(n) => *n,
            TimedEvent::Silence(n) => *n,
        }
    }

    /// Whether the event is a tone.
    pub fn is_tone(&self) -> (r: bool)
        ensures
            r == (*self is Tone),
    {
        match self {
            TimedEvent::Tone(_) => true,
            TimedEvent::Silence(_) => false,
        }
    }

    /// The length of the event at the given tick length: units times the
    /// tick, or `None` where that product does not fit in a `u64`.
    pub fn duration(&self, tick: u64) -> (r: Option<u64>)
        ensures
            r == (if self.spec_units() * tick <= u64::MAX {
                Some((self.spec_units() * tick) as u64)
            } else {
                None::<u64>
            }),
    {
        self.units().checked_mul(tick)
    }
}

/// The events that play an encoded text, ending with one silence.
pub fn sequence(morse: &MorseString) -> (r: Vec<TimedEvent>)
    ensures
        r@ == playback(morse@),
{
    let cs = morse.render_chars(false);
    let mut out: Vec<TimedEvent> = Vec::new();
    let mut i: usize = 0;
    while i < cs.len()
        invariant
            cs@ == compact_text(morse@),
            0 <= i <= cs@.len(),
            out@ == events_of(cs@.take(i as int)),
        decreases cs@.len() - i,
    {
        let c = cs[i];
        if c == '.' {
            out.push(TimedEvent::Tone(1));
        } else if c == '-' {
            out.push(TimedEvent::Tone(3));
        } else if c == ' ' {
            out.push(TimedEvent::Silence(1));
        }
        proof {
            assert(cs@.take(i + 1).drop_last() =~= cs@.take(i as int));
        }
        i += 1;
    }
    assert(cs@.take(cs@.len() as int) =~= cs@);
    out.push(TimedEvent::Silence(1));
    out
}

} // verus!
