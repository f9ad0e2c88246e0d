use morse_bleeps::parse_arguments;

fn args(words: &[&str]) -> Vec<String> {
    words.iter().map(|w| w.to_string()).collect()
}

#[test]
fn words_are_joined_by_spaces() {
    assert_eq!(parse_arguments(&args(&["hello", "world"])), Some(("hello world".to_string(), false)));
}

#[test]
fn print_flag_is_read_first() {
    assert_eq!(parse_arguments(&args(&["--print", "sos"])), Some(("sos".to_string(), true)));
    assert_eq!(parse_arguments(&args(&["-p", "a", "b"])), Some(("a b".to_string(), true)));
}

#[test]
fn print_flag_later_is_text() {
    assert_eq!(parse_arguments(&args(&["sos", "-p"])), Some(("sos -p".to_string(), false)));
}

#[test]
fn help_and_missing_text_give_nothing() {
    assert_eq!(parse_arguments(&args(&[])), None);
    assert_eq!(parse_arguments(&args(&["-p"])), None);
    assert_eq!(parse_arguments(&args(&["help"])), None);
    assert_eq!(parse_arguments(&args(&["-h", "sos"])), None);
    assert_eq!(parse_arguments(&args(&["--print", "--help"])), None);
}

#[test]
fn help_later_is_text() {
    assert_eq!(parse_arguments(&args(&["sos", "help"])), Some(("sos help".to_string(), false)));
}
