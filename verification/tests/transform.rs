use r42::r42t::{transform, Verbatim};

#[test]
fn flushes_trailing_template() {
    let result = transform("hello", &Verbatim, &Verbatim);
    assert_eq!(result, "hello");
}

#[test]
fn flushes_trailing_expression() {
    let result = transform("<#=42", &Verbatim, &Verbatim);
    assert_eq!(result, "42");
}

#[test]
fn parses_code_and_expression_blocks() {
    let result = transform("<#let x = 5;#>value:<#=x#>", &Verbatim, &Verbatim);
    assert_eq!(result, "let x = 5;value:x");
}

#[test]
fn escapes_special_characters() {
    let input = "\"\n\r\t\\\0";
    let result = transform(input, &Verbatim, &Verbatim);
    assert_eq!(result, "\\\"\\n\\r\\t\\\\\\0");
}

#[test]
fn handles_unicode() {
    let input = "café";
    let result = transform(input, &Verbatim, &Verbatim);
    assert_eq!(result, "café");
}

#[test]
fn empty_template_gives_no_code() {
    assert_eq!(transform("", &Verbatim, &Verbatim), "");
}

#[test]
fn text_without_markers_is_escaped_character_by_character() {
    let input = "a \"b\"\tc\\d\n> # < = é";
    let result = transform(input, &Verbatim, &Verbatim);
    assert_eq!(result, "a \\\"b\\\"\\tc\\\\d\\n> # < = é");
}

#[test]
fn code_is_copied_without_escaping() {
    let result = transform("<#let s = \"a\\n\";\t#>", &Verbatim, &Verbatim);
    assert_eq!(result, "let s = \"a\\n\";\t");
}

#[test]
fn expression_is_captured_without_escaping() {
    let result = transform("<#=\"q\"\n#>", &Verbatim, &Verbatim);
    assert_eq!(result, "\"q\"\n");
}

#[test]
fn unterminated_code_runs_to_the_end() {
    assert_eq!(transform("a<#b#", &Verbatim, &Verbatim), "ab#");
}

#[test]
fn opening_marker_at_the_very_end() {
    assert_eq!(transform("abc<#", &Verbatim, &Verbatim), "abc");
    assert_eq!(transform("abc<#=", &Verbatim, &Verbatim), "abc");
}

#[test]
fn marker_characters_are_not_shared_between_two_markers() {
    assert_eq!(transform("<#>x", &Verbatim, &Verbatim), ">x");
    assert_eq!(transform("<#=>x", &Verbatim, &Verbatim), ">x");
    assert_eq!(transform("<##>x", &Verbatim, &Verbatim), "x");
}

#[test]
fn closing_marker_in_literal_text_is_literal() {
    assert_eq!(transform("a#>b", &Verbatim, &Verbatim), "a#>b");
}

#[test]
fn opening_marker_inside_a_tag_is_content() {
    assert_eq!(transform("<#a<#b#>c", &Verbatim, &Verbatim), "a<#bc");
    assert_eq!(transform("<#=a<#=b#>c", &Verbatim, &Verbatim), "a<#=bc");
}

#[test]
fn lone_marker_halves_are_literal() {
    assert_eq!(transform("<", &Verbatim, &Verbatim), "<");
    assert_eq!(transform("a<b#c", &Verbatim, &Verbatim), "a<b#c");
    assert_eq!(transform("< #", &Verbatim, &Verbatim), "< #");
}

#[test]
fn expression_marker_wins_over_code_marker() {
    let code = transform("<#=1#>", &r42::langs::LanguageWriter::JavaScriptTemplate,
        &r42::langs::LanguageWriter::JavaScriptExpression);
    assert_eq!(code, "\nwrite(1);\n");
    let code = transform("<# =1#>", &r42::langs::LanguageWriter::JavaScriptTemplate,
        &r42::langs::LanguageWriter::JavaScriptExpression);
    assert_eq!(code, " =1");
}
