use dynsync::ignore::{name_is_ignored, read_ignore_regex, IgnoreMatcher};
use dynsync::options::Options;

fn options_with_ignore_file(path: &str) -> Options {
    Options {
        debug: false,
        root: "/srv/data".to_string(),
        rsync: "/usr/bin/rsync".to_string(),
        rsync_params: String::new(),
        ignore_file: path.to_string(),
        interval: 0,
        destinations: vec!["host:/backup".to_string()],
    }
}

#[test]
fn compiled_patterns_match_bare_names() {
    let matcher = IgnoreMatcher::compile("^\\.tmp$\n\\.swp$\n").unwrap();
    assert!(matcher.is_ignored(".tmp"));
    assert!(matcher.is_ignored("notes.txt.swp"));
    assert!(!matcher.is_ignored("notes.txt"));
    assert!(!matcher.is_ignored("x.tmp"));
}

#[test]
fn patterns_are_unanchored_unless_they_say_so() {
    let matcher = IgnoreMatcher::compile("tmp").unwrap();
    assert!(matcher.is_ignored("tmp"));
    assert!(matcher.is_ignored("a.tmp.b"));
    assert!(!matcher.is_ignored("temp"));
}

#[test]
fn each_line_is_one_pattern() {
    let matcher = IgnoreMatcher::compile("^a$\r\n^b$").unwrap();
    assert!(matcher.is_ignored("a"));
    assert!(matcher.is_ignored("b"));
    assert!(!matcher.is_ignored("a\r"));
    assert!(!matcher.is_ignored("c"));
}

#[test]
fn empty_content_ignores_nothing() {
    let matcher = IgnoreMatcher::compile("").unwrap();
    assert!(!matcher.is_ignored(""));
    assert!(!matcher.is_ignored("anything"));
}

#[test]
fn malformed_pattern_is_an_error() {
    let made = IgnoreMatcher::compile("^ok$\n(unclosed\n");
    let error = made.unwrap_err();
    assert!(!error.message.is_empty());
    assert_ne!(error.message, "(unclosed".to_string());
}

#[test]
fn from_compiled_keeps_the_set() {
    let set = regex::RegexSet::new(["^a+$"]);
    let matcher = IgnoreMatcher::from_compiled(set).unwrap();
    assert!(matcher.is_ignored("aaa"));
    assert!(!matcher.is_ignored("aab"));
}

#[test]
fn from_compiled_passes_the_failure_on() {
    let set = regex::RegexSet::new(["a{2,1}"]);
    assert!(set.is_err());
    let made = IgnoreMatcher::from_compiled(set);
    assert!(made.is_err());
}

#[test]
fn no_matcher_ignores_nothing() {
    assert!(!name_is_ignored(&None, ".tmp"));
    let matcher = IgnoreMatcher::compile("^\\.tmp$").unwrap();
    assert!(name_is_ignored(&Some(matcher), ".tmp"));
}

#[test]
fn without_ignore_file_there_is_no_filter() {
    let opts = options_with_ignore_file("");
    assert_eq!(opts.ignore_file_path(), None);
    let made = read_ignore_regex(&opts, "(this would not compile").unwrap();
    assert!(made.is_none());
}

#[test]
fn with_ignore_file_the_content_is_compiled() {
    let opts = options_with_ignore_file("ignore.txt");
    assert_eq!(opts.ignore_file_path(), Some("ignore.txt"));
    let made = read_ignore_regex(&opts, "~$\n").unwrap().unwrap();
    assert!(made.is_ignored("draft~"));
    assert!(!made.is_ignored("draft"));
}

#[test]
fn with_ignore_file_a_bad_pattern_fails() {
    let opts = options_with_ignore_file("ignore.txt");
    assert!(read_ignore_regex(&opts, "[").is_err());
}

#[test]
fn with_ignore_file_empty_content_gives_a_filter_that_ignores_nothing() {
    let opts = options_with_ignore_file("ignore.txt");
    let made = read_ignore_regex(&opts, "").unwrap().unwrap();
    assert!(!made.is_ignored(""));
    assert!(!made.is_ignored(".tmp"));
}

#[test]
fn compile_succeeds_exactly_when_the_set_compiles() {
    let contents = ["", "^a$", "^a$\n(", "[", "a|b\nc+\n", "\\", "(?P<n>x)\n.*"];
    for content in contents {
        let expected = regex::RegexSet::new(content.lines()).is_ok();
        assert_eq!(IgnoreMatcher::compile(content).is_ok(), expected);
        let opts = options_with_ignore_file("ignore.txt");
        assert_eq!(read_ignore_regex(&opts, content).is_ok(), expected);
    }
}
