use dynsync::text::{is_whitespace, join_path, split_lines, split_whitespace};

#[test]
fn join_path_puts_a_slash_between() {
    assert_eq!(join_path("root", "photos"), "root/photos".to_string());
    assert_eq!(join_path("./a", "b.txt"), "./a/b.txt".to_string());
}

#[test]
fn split_whitespace_agrees_with_std() {
    let samples = [
        "",
        " ",
        "-v",
        "-v --delete",
        "  -v\t--delete\n-z  ",
        "--exclude=*.tmp\u{3000}--bwlimit=10\u{a0}x",
        "a\u{85}b\u{2003}c",
    ];
    for sample in samples {
        let expected: Vec<String> = sample.split_whitespace().map(|w| w.to_string()).collect();
        assert_eq!(split_whitespace(sample), expected);
    }
}

#[test]
fn is_whitespace_agrees_with_std_on_every_char() {
    let mut code: u32 = 0;
    while code <= 0x10FFFF {
        if let Some(c) = char::from_u32(code) {
            assert_eq!(is_whitespace(c), c.is_whitespace());
        }
        code += 1;
    }
}

#[test]
fn split_lines_agrees_with_std() {
    let samples = [
        "",
        "\n",
        "a",
        "a\n",
        "a\nb",
        "a\r\nb\r\n",
        "a\rb\n",
        "a\r",
        "\r\n\r\n",
        "\r\r\n",
        "^\\.tmp$\n~$\n\n#x",
    ];
    for sample in samples {
        let expected: Vec<String> = sample.lines().map(|l| l.to_string()).collect();
        assert_eq!(split_lines(sample), expected);
    }
}
