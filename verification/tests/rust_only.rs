use r42::escape::append_escaped;
use r42::r42::{transform, write_expression, write_template};
use r42::text::decode;

#[test]
fn transform_generates_rust() {
    assert_eq!(
        transform("a<#let x = 1;#><#=x#>"),
        "\nbuffer.push_str(\"a\");\nlet x = 1;\nbuffer.push_str(format!(\"{:?}\", x).as_str());\n"
    );
}

#[test]
fn transform_flushes_text_after_the_last_tag() {
    assert_eq!(transform("hello"), "\nbuffer.push_str(\"hello\");\n");
    assert_eq!(transform("<#=42"), "\nbuffer.push_str(format!(\"{:?}\", 42).as_str());\n");
    assert_eq!(transform(""), "");
}

#[test]
fn write_template_flushes_and_clears() {
    let mut code = String::from("c");
    let mut buffer = String::from("t\\n");
    write_template(&mut code, &mut buffer);
    assert_eq!(code, "c\nbuffer.push_str(\"t\\n\");\n");
    assert_eq!(buffer, "");
    write_template(&mut code, &mut buffer);
    assert_eq!(code, "c\nbuffer.push_str(\"t\\n\");\n");
    assert_eq!(buffer, "");
}

#[test]
fn write_expression_flushes_and_clears() {
    let mut code = String::from("c");
    let mut buffer = String::from("a + b");
    write_expression(&mut code, &mut buffer);
    assert_eq!(code, "c\nbuffer.push_str(format!(\"{:?}\", a + b).as_str());\n");
    assert_eq!(buffer, "");
    write_expression(&mut code, &mut buffer);
    assert_eq!(code, "c\nbuffer.push_str(format!(\"{:?}\", a + b).as_str());\n");
    assert_eq!(buffer, "");
}

#[test]
fn append_escaped_maps_each_special_character() {
    let cases = [
        ('"', "\\\""),
        ('\\', "\\\\"),
        ('\0', "\\0"),
        ('\n', "\\n"),
        ('\r', "\\r"),
        ('\t', "\\t"),
        ('a', "a"),
        ('é', "é"),
        ('\'', "'"),
        ('0', "0"),
        ('\u{1F600}', "\u{1F600}"),
    ];
    for (c, expected) in cases {
        let mut buffer = String::from("<");
        append_escaped(&mut buffer, c);
        assert_eq!(buffer, format!("<{}", expected));
    }
}

#[test]
fn decode_gives_the_characters_in_order() {
    assert_eq!(decode("aé\0\u{1F600}"), vec!['a', 'é', '\0', '\u{1F600}']);
    assert_eq!(decode(""), Vec::<char>::new());
}
