use mirrord_runner::errors::SetupError;
use mirrord_runner::shellwords::split;

#[test]
fn quoted_words_stay_whole() {
    // a double-quoted section is one argument, unsplit
    let words = split("echo \"a b\" c").unwrap();
    assert_eq!(words, vec!["echo", "a b", "c"]);
}

#[test]
fn plain_whitespace_splitting() {
    assert_eq!(split("a b  c\td").unwrap(), vec!["a", "b", "c", "d"]);
    assert_eq!(split("").unwrap(), Vec::<String>::new());
    assert_eq!(split("   ").unwrap(), Vec::<String>::new());
}

#[test]
fn single_quotes_are_literal() {
    assert_eq!(split("a 'b \"c\" d' e").unwrap(), vec!["a", "b \"c\" d", "e"]);
    assert_eq!(split("''").unwrap(), vec![""]);
    assert_eq!(split("a'b'c").unwrap(), vec!["abc"]);
}

#[test]
fn backslashes_escape() {
    assert_eq!(split("a\\ b").unwrap(), vec!["a b"]);
    assert_eq!(split("\\'").unwrap(), vec!["'"]);
    assert_eq!(split("a\\\nb").unwrap(), vec!["ab"]);
    // a trailing backslash is kept literally
    assert_eq!(split("a\\").unwrap(), vec!["a\\"]);
    assert_eq!(split("\\").unwrap(), vec!["\\"]);
}

#[test]
fn double_quote_escapes() {
    assert_eq!(split("\"a\\\"b\"").unwrap(), vec!["a\"b"]);
    assert_eq!(split("\"a\\$b\"").unwrap(), vec!["a$b"]);
    assert_eq!(split("\"a\\xb\"").unwrap(), vec!["a\\xb"]);
    assert_eq!(split("\"a\\\nb\"").unwrap(), vec!["ab"]);
}

#[test]
fn comments_run_to_end_of_line() {
    assert_eq!(split("a # rest ignored").unwrap(), vec!["a"]);
    assert_eq!(split("a #x\nb").unwrap(), vec!["a", "b"]);
    // a hash inside a word is not a comment
    assert_eq!(split("a#b").unwrap(), vec!["a#b"]);
}

#[test]
fn unclosed_quotes_are_errors() {
    for bad in ["'open", "\"open", "\"open\\"] {
        match split(bad) {
            Err(SetupError::InvalidCommand(m)) => assert_eq!(m, "missing closing quote"),
            other => panic!("expected an invalid-command error, got {:?}", other),
        }
    }
}

#[test]
fn agrees_with_shell_words() {
    let cases = [
        "echo \"a b\" c",
        "a b  c\td",
        "",
        "   ",
        "a 'b \"c\" d' e",
        "''",
        "a'b'c",
        "a\\ b",
        "\\'",
        "a\\\nb",
        "a\\",
        "\\",
        "\"a\\\"b\"",
        "\"a\\$b\"",
        "\"a\\xb\"",
        "\"a\\\nb\"",
        "a # rest ignored",
        "a #x\nb",
        "a#b",
        "cmd --flag=value 'sp ace' \"mix 'n' match\"",
        "'open",
        "\"open",
        "tab\there newline\nthere cr\rkept",
    ];
    for case in cases {
        let ours = split(case);
        let theirs = shell_words::split(case);
        match (&ours, &theirs) {
            (Ok(a), Ok(b)) => assert_eq!(a, b, "words differ on {:?}", case),
            (Err(_), Err(_)) => {}
            _ => panic!("acceptance differs on {:?}: {:?} vs {:?}", case, ours, theirs),
        }
    }
}
