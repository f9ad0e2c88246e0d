use morse_bleeps::{encode, sequence, EncodingError, MorseElement, MorseSymbol, TimedEvent};

const TABLE: [(char, &str); 40] = [
    ('A', ".-"),
    ('B', "-..."),
    ('C', "-.-."),
    ('D', "-.."),
    ('E', "."),
    ('F', "..-."),
    ('G', "--."),
    ('H', "...."),
    ('I', ".."),
    ('J', ".---"),
    ('K', "-.-"),
    ('L', ".-.."),
    ('M', "--"),
    ('N', "-."),
    ('O', "---"),
    ('P', ".--."),
    ('Q', "--.-"),
    ('R', ".-."),
    ('S', "..."),
    ('T', "-"),
    ('U', "..-"),
    ('V', "...-"),
    ('W', ".--"),
    ('X', "-..-"),
    ('Y', "-.--"),
    ('Z', "--.."),
    ('0', "-----"),
    ('1', ".----"),
    ('2', "..---"),
    ('3', "...--"),
    ('4', "....-"),
    ('5', "....."),
    ('6', "-...."),
    ('7', "--..."),
    ('8', "---.."),
    ('9', "----."),
    ('.', ".-.-.-"),
    (',', "--..--"),
    ('?', "..--.."),
    ('/', "-..-."),
];

#[test]
fn every_supported_character_renders_its_code() {
    for (c, code) in TABLE.iter() {
        let m = encode(&c.to_string()).unwrap();
        assert_eq!(m.len(), 1);
        assert_eq!(m.render_readable(), *code);
        assert_eq!(m.render_compact(), *code);
        let lower = c.to_ascii_lowercase().to_string();
        assert_eq!(encode(&lower).unwrap().render_readable(), *code);
    }
}

#[test]
fn letter_symbols_follow_the_code() {
    let m = encode("a").unwrap();
    match &m.elements()[0] {
        MorseElement::Letter(v) => assert_eq!(v, &vec![MorseSymbol::Dot, MorseSymbol::Dash]),
        MorseElement::WordGap => panic!("a letter was expected"),
    }
}

#[test]
fn unsupported_characters_are_refused() {
    for c in ['#', '@', '!', '\n', 'é', '_'] {
        assert_eq!(encode(&c.to_string()).unwrap_err(), EncodingError::UnsupportedCharacter(c));
    }
}

#[test]
fn error_names_the_first_unsupported_character() {
    assert_eq!(encode("ab#c@").unwrap_err(), EncodingError::UnsupportedCharacter('#'));
    assert_eq!(encode("SOS!").unwrap_err(), EncodingError::UnsupportedCharacter('!'));
}

#[test]
fn empty_text_encodes_to_nothing() {
    let m = encode("").unwrap();
    assert!(m.is_empty());
    assert_eq!(m.render_compact(), "");
    assert_eq!(m.render_readable(), "");
    assert_eq!(sequence(&m), vec![TimedEvent::Silence(1)]);
}

#[test]
fn compact_has_one_run_per_character() {
    let text = "Hi there 42";
    let m = encode(text).unwrap();
    let compact = m.render_compact();
    let runs: Vec<&str> = compact.split(' ').filter(|r| !r.is_empty()).collect();
    assert_eq!(runs, vec!["....", "..", "-", "....", ".", ".-.", ".", "....-", "..---"]);
    assert_eq!(runs.len(), text.chars().filter(|c| *c != ' ').count());
}

#[test]
fn sequencing_twice_gives_the_same_events() {
    let a = sequence(&encode("Hello world").unwrap());
    let b = sequence(&encode("Hello world").unwrap());
    assert_eq!(a, b);
}

#[test]
fn sos_renders() {
    let m = encode("SOS").unwrap();
    assert_eq!(m.render_readable(), "... --- ...");
    assert_eq!(m.render_compact(), "... --- ...");
    assert_eq!(encode("sos").unwrap().render_compact(), "... --- ...");
}

#[test]
fn two_words_are_separated_by_a_word_gap() {
    let m = encode("HI THERE").unwrap();
    assert_eq!(m.len(), 8);
    let gaps: Vec<usize> = (0..m.len())
        .filter(|i| matches!(m.elements()[*i], MorseElement::WordGap))
        .collect();
    assert_eq!(gaps, vec![2]);
    assert_eq!(m.render_readable(), ".... .. / - .... . .-. .");
    assert_eq!(m.render_compact(), ".... ..  - .... . .-. .");

    let events = sequence(&m);
    let t1 = TimedEvent::Tone(1);
    let t3 = TimedEvent::Tone(3);
    let s1 = TimedEvent::Silence(1);
    let expected = vec![
        t1, t1, t1, t1, s1, t1, t1, s1, s1, t3, s1, t1, t1, t1, t1, s1, t1, s1, t1, t3, t1, s1,
        t1, s1,
    ];
    assert_eq!(events, expected);
    // the letter gap and the word gap stand side by side at the boundary
    assert_eq!(&events[6..10], &[t1, s1, s1, t3]);
    assert_eq!(events.last(), Some(&s1));
    assert!(events[events.len() - 2].is_tone());
}

#[test]
fn single_dot_gives_two_events() {
    let events = sequence(&encode("E").unwrap());
    assert_eq!(events, vec![TimedEvent::Tone(1), TimedEvent::Silence(1)]);
}

#[test]
fn dash_is_three_ticks() {
    let events = sequence(&encode("t").unwrap());
    assert_eq!(events, vec![TimedEvent::Tone(3), TimedEvent::Silence(1)]);
}

#[test]
fn spaces_alone_give_silence_only() {
    let m = encode("   ").unwrap();
    assert_eq!(m.len(), 3);
    assert!(m.elements().iter().all(|e| matches!(e, MorseElement::WordGap)));
    assert_eq!(m.render_compact(), "  ");
    assert_eq!(m.render_readable(), "/ / /");
    let events = sequence(&m);
    assert_eq!(events, vec![TimedEvent::Silence(1); 3]);
    assert!(events.iter().all(|e| !e.is_tone()));
}

#[test]
fn each_space_leaves_its_own_gap() {
    let m = encode("E  E").unwrap();
    assert_eq!(m.len(), 4);
    assert_eq!(m.render_compact(), ".   .");
}

#[test]
fn durations_scale_with_the_tick() {
    assert_eq!(TimedEvent::Tone(3).units(), 3);
    assert_eq!(TimedEvent::Silence(1).units(), 1);
    assert_eq!(TimedEvent::Tone(3).duration(150), Some(450));
    assert_eq!(TimedEvent::Silence(1).duration(150), Some(150));
    assert_eq!(TimedEvent::Tone(3).duration(u64::MAX), None);
    assert!(TimedEvent::Tone(1).is_tone());
    assert!(!TimedEvent::Silence(1).is_tone());
}
