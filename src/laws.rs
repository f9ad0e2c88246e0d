use vstd::prelude::*;
use crate::code::{compact_text, join, parts_text, readable_text, symbols_text};
use crate::encoder::{all_encodable, encoded, is_encodable, is_first_unencodable};
use crate::sequencer::{events_of, playback, TimedEvent};
use crate::table::{code_of, is_supported, lemma_code_length};

verus! {

/// The maximal runs of non-space characters in `cs`, in order.
pub open spec fn runs(cs: Seq<char>) -> Seq<Seq<char>>
    decreases cs.len(),
{
    if cs.len() == 0 {
        Seq::empty()
    } else {
        let r = runs(cs.drop_last());
        let c = cs.last();
        if c == ' ' {
            r
        } else if cs.len() == 1 || cs[cs.len() - 2] == ' ' {
            r.push(seq![c])
        } else {
            r.update(r.len() - 1, r.last().push(c))
        }
    }
}

/// The codes of the characters of `s` that are not spaces, in order, as
/// text.
pub open spec fn letter_texts(s: Seq<char>) -> Seq<Seq<char>>
    decreases s.len(),
{
    if s.len() == 0 {
        Seq::empty()
    } else if s.last() == ' ' {
        letter_texts(s.drop_last())
    } else {
        letter_texts(s.drop_last()).push(symbols_text(code_of(s.last())->0))
    }
}

/// The number of characters of `s` other than the space.
pub open spec fn non_space_count(s: Seq<char>) -> nat
    decreases s.len(),
{
    if s.len() == 0 {
        0
    } else {
        non_space_count(s.drop_last()) + if s.last() != ' ' {
            1nat
        } else {
            0nat
        }
    }
}

/// The parts that are not empty, in order.
pub open spec fn nonempty_parts(parts: Seq<Seq<char>>) -> Seq<Seq<char>>
    decreases parts.len(),
{
    if parts.len() == 0 {
        Seq::empty()
    } else if parts.last().len() > 0 {
        nonempty_parts(parts.drop_last()).push(parts.last())
    } else {
        nonempty_parts(parts.drop_last())
    }
}

pub open spec fn space_free(p: Seq<char>) -> bool {
    forall|k: int| 0 <= k < p.len() ==> #[trigger] p[k] != ' '
}

/// A single character that has a code encodes to that code alone, and its
/// readable form is that code.
pub proof fn supported_char_encodes_to_its_code(c: char)
    requires
        is_supported(c),
    ensures
        all_encodable(seq![c]),
        encoded(seq![c]) == seq![code_of(c)],
        readable_text(encoded(seq![c])) == symbols_text(code_of(c)->0),
{
    assert(encoded(seq![c]) =~= seq![code_of(c)]);
    assert(parts_text(encoded(seq![c]), true) =~= seq![symbols_text(code_of(c)->0)]);
}

/// A single character that is neither a space nor in the table is refused,
/// and the error names it.
pub proof fn unsupported_char_is_refused(c: char)
    requires
        !is_encodable(c),
    ensures
        !all_encodable(seq![c]),
        is_first_unencodable(seq![c], c),
        forall|d: char| is_first_unencodable(seq![c], d) ==> d == c,
{
    assert(seq![c][0] == c);
}

/// The empty text encodes to nothing: an empty compact form, and a playback
/// of the closing silence alone.
pub proof fn empty_text_encodes_to_nothing(s: Seq<char>)
    requires
        s.len() == 0,
    ensures
        all_encodable(s),
        encoded(s).len() == 0,
        compact_text(encoded(s)).len() == 0,
        playback(encoded(s)) == seq![TimedEvent::Silence(1)],
{
    assert(parts_text(encoded(s), false).len() == 0);
    assert(playback(encoded(s)) =~= seq![TimedEvent::Silence(1)]);
}

proof fn lemma_runs_space_free(p: Seq<char>)
    requires
        space_free(p),
    ensures
        runs(p) == if p.len() > 0 { seq![p] } else { Seq::empty() },
    decreases p.len(),
{
    if p.len() > 0 {
        let q = p.drop_last();
        lemma_runs_space_free(q);
        assert(p.last() != ' ');
        if q.len() == 0 {
            assert(seq![p.last()] =~= p);
            assert(seq![q].len() == 1);
        } else {
            assert(q.last() != ' ');
            assert(q.push(p.last()) =~= p);
            assert(seq![q].update(0, p) =~= seq![p]);
        }
    }
}

proof fn lemma_runs_append(x: Seq<char>, p: Seq<char>)
    requires
        x.len() > 0,
        x.last() == ' ',
        space_free(p),
    ensures
        runs(x + p) == if p.len() > 0 { runs(x).push(p) } else { runs(x) },
    decreases p.len(),
{
    if p.len() == 0 {
        assert(x + p =~= x);
    } else {
        let q = p.drop_last();
        lemma_runs_append(x, q);
        let y = x + p;
        assert(y.drop_last() =~= x + q);
        assert(y.last() == p.last());
        assert(p.last() != ' ');
        if q.len() == 0 {
            assert(y[y.len() - 2] == x.last());
            assert(seq![p.last()] =~= p);
        } else {
            assert(y[y.len() - 2] == q.last());
            assert(q.last() != ' ');
            let r = runs(x).push(q);
            assert(q.push(p.last()) =~= p);
            assert(r.update(r.len() - 1, q.push(p.last())) =~= runs(x).push(p));
        }
    }
}

proof fn lemma_runs_join(parts: Seq<Seq<char>>)
    requires
        forall|i: int| 0 <= i < parts.len() ==> space_free(#[trigger] parts[i]),
    ensures
        runs(join(parts)) == nonempty_parts(parts),
    decreases parts.len(),
{
    if parts.len() == 1 {
        assert(space_free(parts[0]));
        lemma_runs_space_free(parts[0]);
        assert(parts.drop_last() =~= Seq::<Seq<char>>::empty());
        assert(nonempty_parts(parts.drop_last()) =~= Seq::<Seq<char>>::empty());
        if parts[0].len() > 0 {
            assert(Seq::<Seq<char>>::empty().push(parts[0]) =~= seq![parts[0]]);
        }
    } else if parts.len() > 1 {
        let init = parts.drop_last();
        lemma_runs_join(init);
        let x = join(init) + seq![' '];
        assert(x.drop_last() =~= join(init));
        assert(x.last() == ' ');
        assert(runs(x) == runs(join(init)));
        assert(space_free(parts[parts.len() - 1]));
        lemma_runs_append(x, parts.last());
        assert(join(parts) == x + parts.last());
    }
}

proof fn lemma_compact_parts(s: Seq<char>)
    requires
        all_encodable(s),
    ensures
        nonempty_parts(parts_text(encoded(s), false)) == letter_texts(s),
        letter_texts(s).len() == non_space_count(s),
        forall|i: int|
            0 <= i < s.len() ==> space_free(#[trigger] parts_text(encoded(s), false)[i]),
    decreases s.len(),
{
    let parts = parts_text(encoded(s), false);
    assert forall|i: int| 0 <= i < s.len() implies space_free(#[trigger] parts[i]) by {
        if s[i] != ' ' {
            let sym = code_of(s[i])->0;
            assert forall|k: int| 0 <= k < parts[i].len() implies #[trigger] parts[i][k]
                != ' ' by {
                assert(parts[i][k] == crate::code::symbol_char(sym[k]));
            }
        }
    }
    if s.len() > 0 {
        let t = s.drop_last();
        assert(all_encodable(t)) by {
            assert forall|i: int| 0 <= i < t.len() implies is_encodable(#[trigger] t[i]) by {
                assert(t[i] == s[i]);
            }
        }
        lemma_compact_parts(t);
        assert(parts.drop_last() =~= parts_text(encoded(t), false));
        let c = s.last();
        assert(is_encodable(s[s.len() - 1]));
        if c != ' ' {
            lemma_code_length(c);
        }
    }
}

/// The compact form has exactly one run of `.` and `-` for each character
/// of the text that is not a space: that character's code, in the order of
/// the text.
pub proof fn compact_has_one_run_per_character(s: Seq<char>)
    requires
        all_encodable(s),
    ensures
        runs(compact_text(encoded(s))) == letter_texts(s),
        runs(compact_text(encoded(s))).len() == non_space_count(s),
{
    lemma_compact_parts(s);
    lemma_runs_join(parts_text(encoded(s), false));
}

/// The playback is a function of the text: encoding and sequencing the same
/// text twice gives the same events.
pub proof fn playback_is_determined_by_text(s: Seq<char>, t: Seq<char>)
    requires
        all_encodable(s),
        s == t,
    ensures
        playback(encoded(s)) == playback(encoded(t)),
{
}

proof fn lemma_join_of_empty_parts(parts: Seq<Seq<char>>)
    requires
        forall|i: int| 0 <= i < parts.len() ==> (#[trigger] parts[i]).len() == 0,
    ensures
        forall|k: int| 0 <= k < join(parts).len() ==> #[trigger] join(parts)[k] == ' ',
    decreases parts.len(),
{
    if parts.len() > 1 {
        lemma_join_of_empty_parts(parts.drop_last());
        assert(parts.last().len() == 0);
        let j = join(parts.drop_last());
        assert(join(parts) =~= j + seq![' ']);
    }
}

proof fn lemma_events_of_spaces(cs: Seq<char>)
    requires
        forall|k: int| 0 <= k < cs.len() ==> #[trigger] cs[k] == ' ',
    ensures
        forall|k: int| 0 <= k < events_of(cs).len() ==> #[trigger] events_of(cs)[k] == TimedEvent::Silence(1),
    decreases cs.len(),
{
    if cs.len() > 0 {
        lemma_events_of_spaces(cs.drop_last());
        assert(cs.last() == ' ');
    }
}

/// A text of spaces alone encodes to word gaps alone, and its playback holds
/// silences only.
pub proof fn spaces_encode_to_silence(s: Seq<char>)
    requires
        forall|i: int| 0 <= i < s.len() ==> #[trigger] s[i] == ' ',
    ensures
        all_encodable(s),
        forall|i: int| 0 <= i < s.len() ==> #[trigger] encoded(s)[i] is None,
        forall|k: int| 0 <= k < playback(encoded(s)).len() ==> #[trigger] playback(encoded(s))[k] is Silence,
{
    let parts = parts_text(encoded(s), false);
    assert forall|i: int| 0 <= i < parts.len() implies (#[trigger] parts[i]).len() == 0 by {
        assert(s[i] == ' ');
    }
    lemma_join_of_empty_parts(parts);
    lemma_events_of_spaces(compact_text(encoded(s)));
    let ev = events_of(compact_text(encoded(s)));
    assert forall|k: int| 0 <= k < playback(encoded(s)).len() implies #[trigger] playback(encoded(s))[k] is Silence by {
        if k < ev.len() {
            assert(ev[k] == TimedEvent::Silence(1));
        }
    }
}

} // verus!
