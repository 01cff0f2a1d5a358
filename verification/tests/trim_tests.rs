use catalyser::str_extension::MultilineStr;

#[test]
fn test_trim_margin_with() {
    let input = "\
|Hello, world!
|This is a test.";
    let expected = "\
Hello, world!
This is a test.";

    assert_eq!(input.trim_margin_with("|"), expected);
}

#[test]
fn test_trim_margin_with_custom_prefix() {
    let input = "\
%Hello, world!
%This is a test.";
    let expected = "\
Hello, world!
This is a test.";

    assert_eq!(input.trim_margin_with("%"), expected);
}

#[test]
fn test_trim_margin_with_no_prefix_match() {
    let input = "\
#Hello, world!
|This is a test.";
    // Only the line with the prefix "|" will be stripped
    let expected = "\
This is a test.";

    assert_eq!(input.trim_margin_with("|"), expected);
}

#[test]
fn test_trim_margin() {
    let input = "\
            |Indented line 1
            |Indented line 2
        ";
    let expected = "\
Indented line 1
Indented line 2";

    assert_eq!(input.trim_margin(), expected);
}

#[test]
fn test_trim_margin_with_empty_lines() {
    let input = "\
\n\
|Hello
|World


";
    let expected = "\
Hello
World";

    assert_eq!(input.trim_margin(), expected);
}

#[test]
fn test_trim_margin_with_only_prefix() {
    let input = "|";
    let expected = "";

    assert_eq!(input.trim_margin(), expected);
}

#[test]
fn test_trim_margin_with_extra_whitespace() {
    let input = "   |   Hello   \n   |   World   ";
    let expected = "   Hello   \n   World   ";

    assert_eq!(input.trim_margin(), expected);
}

#[test]
fn test_trim_margin_with_crlf_line_endings() {
    let input = "|Hello\r\n|World";
    let expected = "Hello\nWorld";

    assert_eq!(input.trim_margin(), expected);
}

#[test]
fn test_trim_margin_with_multi_character_prefix() {
    let input = ">> one\n>> two";
    let expected = " one\n two";

    assert_eq!(input.trim_margin_with(">>"), expected);
}
