use mobile_ai_orchestrator::cli::{
    join, parse_args, parse_command, read_input, ArgsError, Command, Input, Mode,
};
use mobile_ai_orchestrator::text::{
    chars_of, contains, count_punctuation, count_uppercase, is_ascii_punctuation,
    lowercase_contains, split_words, starts_with, str_eq, trim,
};

fn args(list: &[&str]) -> Vec<String> {
    list.iter().map(|s| s.to_string()).collect()
}

fn chars(s: &str) -> Vec<char> {
    s.chars().collect()
}

#[test]
fn no_arguments_start_a_session() {
    assert!(matches!(parse_args(&args(&["prog"])).unwrap().mode, Mode::Interactive));
    assert!(matches!(parse_args(&args(&[])).unwrap().mode, Mode::Interactive));
    assert!(matches!(parse_args(&args(&["prog", "-i"])).unwrap().mode, Mode::Interactive));
    assert!(matches!(
        parse_args(&args(&["prog", "--interactive", "x"])).unwrap().mode,
        Mode::Interactive
    ));
}

#[test]
fn help_and_version_flags() {
    assert!(matches!(parse_args(&args(&["prog", "--help"])).unwrap().mode, Mode::Help));
    assert!(matches!(parse_args(&args(&["prog", "-h", "more"])).unwrap().mode, Mode::Help));
    assert!(matches!(parse_args(&args(&["prog", "--version"])).unwrap().mode, Mode::Version));
    assert!(matches!(parse_args(&args(&["prog", "-v"])).unwrap().mode, Mode::Version));
}

#[test]
fn words_become_a_single_query() {
    match parse_args(&args(&["prog", "How", "do", "I", "iterate?"])).unwrap().mode {
        Mode::SingleQuery { query, project } => {
            assert_eq!(query, "How do I iterate?");
            assert_eq!(project, None);
        }
        other => panic!("unexpected mode {:?}", other),
    }
    match parse_args(&args(&["prog", "--unknown"])).unwrap().mode {
        Mode::SingleQuery { query, project } => {
            assert_eq!(query, "--unknown");
            assert_eq!(project, None);
        }
        other => panic!("unexpected mode {:?}", other),
    }
}

#[test]
fn project_flag_takes_a_name_and_a_query() {
    match parse_args(&args(&["prog", "--project", "oblibeny", "Explain", "type", "system"]))
        .unwrap()
        .mode
    {
        Mode::SingleQuery { query, project } => {
            assert_eq!(query, "Explain type system");
            assert_eq!(project.as_deref(), Some("oblibeny"));
        }
        other => panic!("unexpected mode {:?}", other),
    }
    match parse_args(&args(&["prog", "-p", "x", "q"])).unwrap().mode {
        Mode::SingleQuery { query, project } => {
            assert_eq!(query, "q");
            assert_eq!(project.as_deref(), Some("x"));
        }
        other => panic!("unexpected mode {:?}", other),
    }
    assert_eq!(
        parse_args(&args(&["prog", "--project", "x"])).err(),
        Some(ArgsError::ProjectNeedsNameAndQuery)
    );
    assert_eq!(
        parse_args(&args(&["prog", "-p"])).err(),
        Some(ArgsError::ProjectNeedsNameAndQuery)
    );
}

#[test]
fn joining_arguments() {
    let list = args(&["a", "", "b c", "d"]);
    assert_eq!(join(&list, 0), "a  b c d");
    assert_eq!(join(&list, 3), "d");
    assert_eq!(join(&list, 4), "");
}

#[test]
fn commands_of_the_session() {
    assert!(matches!(parse_command("/quit"), Command::Quit));
    assert!(matches!(parse_command("/exit now"), Command::Quit));
    assert!(matches!(parse_command("/clear"), Command::Clear));
    assert!(matches!(parse_command("/history"), Command::History));
    assert!(matches!(parse_command("/project"), Command::ProjectUsage));
    match parse_command("/project  alpha beta") {
        Command::Project(name) => assert_eq!(name, "alpha"),
        other => panic!("unexpected command {:?}", other),
    }
    match parse_command("/frobnicate x") {
        Command::Unknown(word) => assert_eq!(word, "/frobnicate"),
        other => panic!("unexpected command {:?}", other),
    }
    match parse_command("   ") {
        Command::Unknown(word) => assert_eq!(word, ""),
        other => panic!("unexpected command {:?}", other),
    }
    assert!(matches!(parse_command("/QUIT"), Command::Unknown(_)));
}

#[test]
fn lines_of_the_session() {
    assert!(matches!(read_input(""), Input::Empty));
    assert!(matches!(read_input(" \t\r\n"), Input::Empty));
    match read_input("  Hello there \n") {
        Input::Query(q) => assert_eq!(q, "Hello there"),
        other => panic!("unexpected input {:?}", other),
    }
    assert!(matches!(read_input(" /clear\n"), Input::Command(Command::Clear)));
    match read_input("/project p1\n") {
        Input::Command(Command::Project(name)) => assert_eq!(name, "p1"),
        other => panic!("unexpected input {:?}", other),
    }
    match read_input("what /is this") {
        Input::Query(q) => assert_eq!(q, "what /is this"),
        other => panic!("unexpected input {:?}", other),
    }
}

#[test]
fn searching_text() {
    assert!(contains(&chars("hello world"), &chars("o w")));
    assert!(contains(&chars("hello"), &chars("")));
    assert!(contains(&chars(""), &chars("")));
    assert!(!contains(&chars("hello"), &chars("hello!")));
    assert!(!contains(&chars("hello"), &chars("lol")));
    assert!(contains(&chars("aab"), &chars("ab")));
    assert!(starts_with(&chars("how are you"), &chars("how")));
    assert!(!starts_with(&chars("show"), &chars("how")));
    assert!(starts_with(&chars("x"), &chars("")));
    assert!(!starts_with(&chars("ho"), &chars("how")));
    assert!(lowercase_contains("Please PROVE it", "prove"));
    assert!(!lowercase_contains("Please prove it", "PROVE"));
    assert!(str_eq("abc", "abc"));
    assert!(!str_eq("abc", "abd"));
    assert!(!str_eq("abc", "ab"));
    assert_eq!(chars_of("h\u{e9}"), vec!['h', '\u{e9}']);
}

#[test]
fn counting_characters() {
    assert_eq!(count_uppercase(&chars("Hello World \u{c9}")), 3);
    assert_eq!(count_uppercase(&chars("")), 0);
    assert_eq!(count_punctuation(&chars("a.b,c!? (d) [e] {f} ~")), 11);
    assert_eq!(count_punctuation(&chars("\u{2026}")), 0);
    let punctuation = "!\"#$%&'()*+,-./:;<=>?@[\\]^_`{|}~";
    for c in (0u8..128).map(|b| b as char) {
        assert_eq!(is_ascii_punctuation(c), punctuation.contains(c), "{:?}", c);
        assert_eq!(is_ascii_punctuation(c), c.is_ascii_punctuation());
    }
}

#[test]
fn splitting_and_trimming() {
    let words = split_words(&chars("  one two\tthree\n\nfour  "));
    let words: Vec<String> = words.iter().map(|w| w.iter().collect()).collect();
    assert_eq!(words, vec!["one", "two", "three", "four"]);
    assert!(split_words(&chars("")).is_empty());
    assert!(split_words(&chars(" \u{a0}\u{2003} ")).is_empty());
    assert_eq!(split_words(&chars("solo")).len(), 1);
    assert_eq!(trim(&chars("  a b  ")), chars("a b"));
    assert_eq!(trim(&chars("a")), chars("a"));
    assert_eq!(trim(&chars(" \n ")), chars(""));
    assert_eq!(trim(&chars("")), chars(""));
    assert_eq!(trim(&chars("\u{2003}x y\u{a0}")), chars("x y"));
}
