use vstd::prelude::*;
use vstd::string::StringExecFns;
use crate::code::join;

verus! {

/// The flag that asks for the Morse code to be printed too.
pub open spec fn is_print_flag(a: Seq<char>) -> bool {
    a == "--print"@ || a == "-p"@
}

/// An argument that asks for help.
pub open spec fn is_help(a: Seq<char>) -> bool {
    a == "-h"@ || a == "--help"@ || a == "help"@
}

pub open spec fn words_of(args: Seq<String>) -> Seq<Seq<char>> {
    args.map_values(|s: String| s@)
}

/// What the command line asks for, program name left out: `None` where it
/// asks for help or gives no text; else the text to play, its words joined
/// by spaces, and whether to print it too.
pub open spec fn command_of(args: Seq<Seq<char>>) -> Option<(Seq<char>, bool)> {
    if args.len() == 0 {
        None
    } else if is_print_flag(args[0]) {
        if args.len() == 1 || is_help(args[1]) {
            None
        } else {
            Some((join(args.drop_first()), true))
        }
    } else if is_help(args[0]) {
        None
    } else {
        Some((join(args), false))
    }
}

fn check_print_flag(a: &String) -> (r: bool)
    ensures
        r == is_print_flag(a@),
{
    let long = String::from_str("--print");
    let short = String::from_str("-p");
    *a == long || *a == short
}

fn check_help(a: &String) -> (r: bool)
    ensures
        r == is_help(a@),
{
    let short = String::from_str("-h");
    let long = String::from_str("--help");
    let word = String::from_str("help");
    *a == short || *a == long || *a == word
}

fn join_words(args: &Vec<String>, start: usize) -> (r: String)
    requires
        start <= args@.len(),
    ensures
        r@ == join(words_of(args@).skip(start as int)),
{
    let ghost words = words_of(args@).skip(start as int);
    let mut out: Vec<char> = Vec::new();
    let mut i: usize = start;
    while i < args.len()
        invariant
            start <= i <= args@.len(),
            words == words_of(args@).skip(start as int),
            out@ == join(words.take(i - start)),
        decreases args@.len() - i,
    {
        let ghost before = out@;
        if i > start {
            out.push(' ');
        }
        let ghost mid = out@;
        let cs = crate::text::chars_of(args[i].as_str());
        let mut j: usize = 0;
        while j < cs.len()
            invariant
                0 <= j <= cs@.len(),
                out@ == mid + cs@.take(j as int),
            decreases cs@.len() - j,
        {
            out.push(cs[j]);
            proof {
                assert(cs@.take(j + 1) =~= cs@.take(j as int).push(cs@[j as int]));
            }
            j += 1;
        }
        proof {
            let k = (i - start) as int;
            let t = words.take(k + 1);
            assert(cs@.take(j as int) =~= cs@);
            assert(t.drop_last() =~= words.take(k));
            assert(words[k] == args@[i as int]@);
            if k == 0 {
                assert(out@ =~= t[0]);
            } else {
                assert(out@ =~= before + seq![' '] + t.last());
            }
        }
        i += 1;
    }
    assert(words.take(args@.len() - start) =~= words);
    crate::text::string_of(&out)
}

/// Reads the command line, program name left out.
pub fn parse_arguments(args: &Vec<String>) -> (r: Option<(String, bool)>)
    ensures
        match r {
            None => command_of(words_of(args@)) is None,
            Some((text, print)) => command_of(words_of(args@)) == Some((text@, print)),
        },
{
    let ghost w = words_of(args@);
    if args.len() == 0 {
        return None;
    }
    if check_print_flag(&args[0]) {
        if args.len() == 1 || check_help(&args[1]) {
            return None;
        }
        let text = join_words(args, 1);
        assert(w.skip(1) =~= w.drop_first());
        Some((text, true))
    } else if check_help(&args[0]) {
        None
    } else {
        let text = join_words(args, 0);
        assert(w.skip(0) =~= w);
        Some((text, false))
    }
}

} // verus!
