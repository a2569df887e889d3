use terminal_relaunch::{shell_escape, shell_escape_args};

/// Splits a line into words as a POSIX shell does, for lines made of
/// single-quoted parts, backslash escapes and blanks.
fn read_words(line: &str) -> Option<Vec<String>> {
    let mut words = Vec::new();
    let mut word: Option<String> = None;
    let mut quoted = false;
    let mut chars = line.chars();
    while let Some(c) = chars.next() {
        if quoted {
            if c == '\'' {
                quoted = false;
            } else {
                word.get_or_insert_with(String::new).push(c);
            }
        } else if c == '\'' {
            quoted = true;
            word.get_or_insert_with(String::new);
        } else if c == ' ' || c == '\t' {
            if let Some(w) = word.take() {
                words.push(w);
            }
        } else if c == '\\' {
            match chars.next() {
                Some('\n') => {}
                Some(next) => word.get_or_insert_with(String::new).push(next),
                None => return None,
            }
        } else {
            return None;
        }
    }
    if quoted {
        return None;
    }
    if let Some(w) = word.take() {
        words.push(w);
    }
    Some(words)
}

#[test]
fn plain_string_is_put_between_quotes() {
    assert_eq!(shell_escape("abc"), "'abc'");
    assert_eq!(shell_escape("/usr/local/bin/tool"), "'/usr/local/bin/tool'");
}

#[test]
fn empty_string_is_two_quotes() {
    assert_eq!(shell_escape(""), "''");
}

#[test]
fn single_quote_becomes_four_characters() {
    assert_eq!(shell_escape("'"), "''\\'''");
    assert_eq!(shell_escape("it's"), "'it'\\''s'");
    assert_eq!(shell_escape("''"), "''\\'''\\'''");
    assert_eq!(shell_escape("a'b'c"), "'a'\\''b'\\''c'");
}

#[test]
fn other_special_characters_are_left_alone() {
    assert_eq!(shell_escape("a b"), "'a b'");
    assert_eq!(shell_escape("$HOME;rm -rf \"x\""), "'$HOME;rm -rf \"x\"'");
    assert_eq!(shell_escape("back\\slash"), "'back\\slash'");
    assert_eq!(shell_escape("line\nbreak"), "'line\nbreak'");
    assert_eq!(shell_escape("caf\u{e9} \u{1f600}"), "'caf\u{e9} \u{1f600}'");
}

#[test]
fn a_shell_reads_the_escaped_string_back() {
    for s in [
        "",
        "'",
        "''",
        "it's",
        "'start",
        "end'",
        "a'b'c",
        "\\'",
        "'\\''",
        "$(echo 'x')",
        "two words",
        "tab\tand\nnewline",
        "\u{e9}'\u{1f600}",
    ] {
        assert_eq!(
            read_words(&shell_escape(s)),
            Some(vec![s.to_string()]),
            "{:?}",
            s
        );
    }
}

#[test]
fn arguments_are_joined_by_single_spaces() {
    let args = vec!["--flag".to_string(), "it's".to_string(), "".to_string()];
    assert_eq!(shell_escape_args(&args), "'--flag' 'it'\\''s' ''");
}

#[test]
fn one_argument_has_no_space() {
    assert_eq!(shell_escape_args(&vec!["a b".to_string()]), "'a b'");
}

#[test]
fn no_arguments_give_the_empty_string() {
    assert_eq!(shell_escape_args(&Vec::new()), "");
}

#[test]
fn a_shell_reads_the_joined_arguments_back() {
    let lists: Vec<Vec<String>> = vec![
        vec![],
        vec!["".to_string()],
        vec!["".to_string(), "".to_string()],
        vec!["a b".to_string(), "c".to_string()],
        vec!["it's".to_string(), "' '".to_string(), "\\".to_string()],
        vec!["--name=O'Brien".to_string(), "tab\there".to_string(), "x".to_string()],
    ];
    for args in lists {
        assert_eq!(read_words(&shell_escape_args(&args)), Some(args.clone()), "{:?}", args);
    }
}
