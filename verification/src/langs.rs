//! The target languages: for each one its name, the extension of its source
//! files, and the two writers that emit its statements.

use vstd::prelude::*;
use crate::r42t::{written, Writer};

verus! {

/// The statement that a writer appends for a fragment: the fragment between
/// the opening and the closing text of the target language's call.
pub open spec fn framed(opening: Seq<char>, fragment: Seq<char>, closing: Seq<char>) -> Seq<char> {
    opening + fragment + closing
}

/// Rust: appends the literal text to the runtime buffer.
pub open spec fn rust_template_statement(fragment: Seq<char>) -> Seq<char> {
    framed("\nbuffer.push_str(\""@, fragment, "\");\n"@)
}

/// Rust: appends the debug form of the expression's value.
pub open spec fn rust_expression_statement(fragment: Seq<char>) -> Seq<char> {
    framed("\nbuffer.push_str(format!(\"{:?}\", "@, fragment, ").as_str());\n"@)
}

/// C#: writes the literal text to the runtime buffer.
pub open spec fn csharp_template_statement(fragment: Seq<char>) -> Seq<char> {
    framed("\nbuffer.Write(\""@, fragment, "\");\n"@)
}

/// C#: writes what `ToString` gives for the expression's value.
pub open spec fn csharp_expression_statement(fragment: Seq<char>) -> Seq<char> {
    framed("\nbuffer.Write(("@, fragment, ").ToString());\n"@)
}

/// Java: writes the literal text to the runtime buffer.
pub open spec fn java_template_statement(fragment: Seq<char>) -> Seq<char> {
    framed("\nbuffer.write(\""@, fragment, "\");\n"@)
}

/// Java: writes what `toString` gives for the expression's value.
pub open spec fn java_expression_statement(fragment: Seq<char>) -> Seq<char> {
    framed("\nbuffer.write(("@, fragment, ").toString());\n"@)
}

/// JavaScript: writes the literal text.
pub open spec fn javascript_template_statement(fragment: Seq<char>) -> Seq<char> {
    framed("\nwrite(\""@, fragment, "\");\n"@)
}

/// JavaScript: writes the expression's value, coerced to a string.
pub open spec fn javascript_expression_statement(fragment: Seq<char>) -> Seq<char> {
    framed("\nwrite("@, fragment, ");\n"@)
}

/// C++: writes the literal text.
pub open spec fn cpp_template_statement(fragment: Seq<char>) -> Seq<char> {
    framed("\nwrite(\""@, fragment, "\");\n"@)
}

/// C++: writes the expression's value.
pub open spec fn cpp_expression_statement(fragment: Seq<char>) -> Seq<char> {
    framed("\nwrite("@, fragment, ");\n"@)
}

/// Appends `fragment` between `opening` and `closing`, unless it is empty.
fn write_framed(code_buffer: &mut String, opening: &str, fragment: &String, closing: &str)
    ensures
        final(code_buffer)@ == old(code_buffer)@ + written(
            fragment@,
            framed(opening@, fragment@, closing@),
        ),
{
    if fragment.as_str().is_empty() {
        assert(code_buffer@ + Seq::<char>::empty() =~= code_buffer@);
        return ;
    }
    let ghost before = code_buffer@;
    code_buffer.push_str(opening);
    code_buffer.push_str(fragment.as_str());
    code_buffer.push_str(closing);
    assert(code_buffer@ =~= before + framed(opening@, fragment@, closing@));
}

/// Writes plain text for Rust templates.
pub fn rust_template_writer(code_buffer: &mut String, template_buffer: &String)
    ensures
        final(code_buffer)@ == old(code_buffer)@ + written(
            template_buffer@,
            rust_template_statement(template_buffer@),
        ),
{
    write_framed(code_buffer, "\nbuffer.push_str(\"", template_buffer, "\");\n");
}

/// Writes a Rust expression result into the output buffer.
pub fn rust_expression_writer(code_buffer: &mut String, expression_buffer: &String)
    ensures
        final(code_buffer)@ == old(code_buffer)@ + written(
            expression_buffer@,
            rust_expression_statement(expression_buffer@),
        ),
{
    write_framed(
        code_buffer,
        "\nbuffer.push_str(format!(\"{:?}\", ",
        expression_buffer,
        ").as_str());\n",
    );
}

/// Writes plain text for C# templates.
pub fn csharp_template_writer(code_buffer: &mut String, template_buffer: &String)
    ensures
        final(code_buffer)@ == old(code_buffer)@ + written(
            template_buffer@,
            csharp_template_statement(template_buffer@),
        ),
{
    write_framed(code_buffer, "\nbuffer.Write(\"", template_buffer, "\");\n");
}

/// Writes the result of a C# expression into the output buffer.
pub fn csharp_expression_writer(code_buffer: &mut String, expression_buffer: &String)
    ensures
        final(code_buffer)@ == old(code_buffer)@ + written(
            expression_buffer@,
            csharp_expression_statement(expression_buffer@),
        ),
{
    write_framed(code_buffer, "\nbuffer.Write((", expression_buffer, ").ToString());\n");
}

/// Writes plain text for Java templates.
pub fn java_template_writer(code_buffer: &mut String, template_buffer: &String)
    ensures
        final(code_buffer)@ == old(code_buffer)@ + written(
            template_buffer@,
            java_template_statement(template_buffer@),
        ),
{
    write_framed(code_buffer, "\nbuffer.write(\"", template_buffer, "\");\n");
}

/// Writes the result of a Java expression into the output buffer.
pub fn java_expression_writer(code_buffer: &mut String, expression_buffer: &String)
    ensures
        final(code_buffer)@ == old(code_buffer)@ + written(
            expression_buffer@,
            java_expression_statement(expression_buffer@),
        ),
{
    write_framed(code_buffer, "\nbuffer.write((", expression_buffer, ").toString());\n");
}

/// Writes plain text for JavaScript templates.
pub fn javascript_template_writer(code_buffer: &mut String, template_buffer: &String)
    ensures
        final(code_buffer)@ == old(code_buffer)@ + written(
            template_buffer@,
            javascript_template_statement(template_buffer@),
        ),
{
    write_framed(code_buffer, "\nwrite(\"", template_buffer, "\");\n");
}

/// Writes the result of a JavaScript expression into the output buffer.
pub fn javascript_expression_writer(code_buffer: &mut String, expression_buffer: &String)
    ensures
        final(code_buffer)@ == old(code_buffer)@ + written(
            expression_buffer@,
            javascript_expression_statement(expression_buffer@),
        ),
{
    write_framed(code_buffer, "\nwrite(", expression_buffer, ");\n");
}

/// Writes plain text for C++ templates.
pub fn cpp_template_writer(code_buffer: &mut String, template_buffer: &String)
    ensures
        final(code_buffer)@ == old(code_buffer)@ + written(
            template_buffer@,
            cpp_template_statement(template_buffer@),
        ),
{
    write_framed(code_buffer, "\nwrite(\"", template_buffer, "\");\n");
}

/// Writes the result of a C++ expression into the output buffer.
pub fn cpp_expression_writer(code_buffer: &mut String, expression_buffer: &String)
    ensures
        final(code_buffer)@ == old(code_buffer)@ + written(
            expression_buffer@,
            cpp_expression_statement(expression_buffer@),
        ),
{
    write_framed(code_buffer, "\nwrite(", expression_buffer, ");\n");
}

/// One of the writers of the languages that are built in.
#[derive(Copy, Clone, Debug, PartialEq, Eq, Structural)]
pub enum LanguageWriter {
    RustTemplate,
    RustExpression,
    CSharpTemplate,
    CSharpExpression,
    JavaTemplate,
    JavaExpression,
    JavaScriptTemplate,
    JavaScriptExpression,
    CppTemplate,
    CppExpression,
}

impl Writer for LanguageWriter {
    open spec fn statement(&self, fragment: Seq<char>) -> Seq<char> {
        match self {
            LanguageWriter::RustTemplate => rust_template_statement(fragment),
            LanguageWriter::RustExpression => rust_expression_statement(fragment),
            LanguageWriter::CSharpTemplate => csharp_template_statement(fragment),
            LanguageWriter::CSharpExpression => csharp_expression_statement(fragment),
            LanguageWriter::JavaTemplate => java_template_statement(fragment),
            LanguageWriter::JavaExpression => java_expression_statement(fragment),
            LanguageWriter::JavaScriptTemplate => javascript_template_statement(fragment),
            LanguageWriter::JavaScriptExpression => javascript_expression_statement(fragment),
            LanguageWriter::CppTemplate => cpp_template_statement(fragment),
            LanguageWriter::CppExpression => cpp_expression_statement(fragment),
        }
    }

    fn write(&self, code_buffer: &mut String, fragment: &String) {
        match self {
            LanguageWriter::RustTemplate => rust_template_writer(code_buffer, fragment),
            LanguageWriter::RustExpression => rust_expression_writer(code_buffer, fragment),
            LanguageWriter::CSharpTemplate => csharp_template_writer(code_buffer, fragment),
            LanguageWriter::CSharpExpression => csharp_expression_writer(code_buffer, fragment),
            LanguageWriter::JavaTemplate => java_template_writer(code_buffer, fragment),
            LanguageWriter::JavaExpression => java_expression_writer(code_buffer, fragment),
            LanguageWriter::JavaScriptTemplate => javascript_template_writer(code_buffer, fragment),
            LanguageWriter::JavaScriptExpression => javascript_expression_writer(
                code_buffer,
                fragment,
            ),
            LanguageWriter::CppTemplate => cpp_template_writer(code_buffer, fragment),
            LanguageWriter::CppExpression => cpp_expression_writer(code_buffer, fragment),
        }
    }
}

/// Representation of a supported target language.
#[derive(Copy, Clone, Debug)]
pub struct Language {
    /// Human readable name shown in help output
    pub name: &'static str,
    /// File extension used for generated files
    pub extension: &'static str,
    /// Writer for plain template fragments
    pub template_writer: LanguageWriter,
    /// Writer for expression fragments
    pub expression_writer: LanguageWriter,
}

/// The languages that code can be generated for, in their fixed order.
/// The first one is the default when no language is named.
pub open spec fn registry() -> Seq<Language> {
    seq![
        Language {
            name: "Rust",
            extension: "rs",
            template_writer: LanguageWriter::RustTemplate,
            expression_writer: LanguageWriter::RustExpression,
        },
        Language {
            name: "C#",
            extension: "cs",
            template_writer: LanguageWriter::CSharpTemplate,
            expression_writer: LanguageWriter::CSharpExpression,
        },
        Language {
            name: "Java",
            extension: "java",
            template_writer: LanguageWriter::JavaTemplate,
            expression_writer: LanguageWriter::JavaExpression,
        },
        Language {
            name: "JavaScript",
            extension: "js",
            template_writer: LanguageWriter::JavaScriptTemplate,
            expression_writer: LanguageWriter::JavaScriptExpression,
        },
        Language {
            name: "C++",
            extension: "cpp",
            template_writer: LanguageWriter::CppTemplate,
            expression_writer: LanguageWriter::CppExpression,
        },
    ]
}

/// List of languages that code can be generated for.
/// The order determines the default language when none is specified.
pub fn languages() -> (list: [Language; 5])
    ensures
        list@ == registry(),
{
    let list = [
        Language {
            name: "Rust",
            extension: "rs",
            template_writer: LanguageWriter::RustTemplate,
            expression_writer: LanguageWriter::RustExpression,
        },
        Language {
            name: "C#",
            extension: "cs",
            template_writer: LanguageWriter::CSharpTemplate,
            expression_writer: LanguageWriter::CSharpExpression,
        },
        Language {
            name: "Java",
            extension: "java",
            template_writer: LanguageWriter::JavaTemplate,
            expression_writer: LanguageWriter::JavaExpression,
        },
        Language {
            name: "JavaScript",
            extension: "js",
            template_writer: LanguageWriter::JavaScriptTemplate,
            expression_writer: LanguageWriter::JavaScriptExpression,
        },
        Language {
            name: "C++",
            extension: "cpp",
            template_writer: LanguageWriter::CppTemplate,
            expression_writer: LanguageWriter::CppExpression,
        },
    ];
    assert(list@ =~= registry());
    list
}

/// The language used when none is named: the first of the list.
pub fn default_language() -> (language: Language)
    ensures
        language == registry()[0],
{
    languages()[0]
}

/// Whether two string slices hold the same text.
fn same_text(a: &str, b: &str) -> (same: bool)
    ensures
        same == (a@ == b@),
{
    a.to_owned() == b.to_owned()
}

/// The first language of the list whose display name is `name`.
pub fn find_by_name(name: &str) -> (found: Option<Language>)
    ensures
        match found {
            Some(language) => exists|i: int|
                0 <= i < registry().len() && registry()[i] == language && language.name@ == name@
                    && forall|j: int| 0 <= j < i ==> (#[trigger] registry()[j]).name@ != name@,
            None => forall|i: int|
                0 <= i < registry().len() ==> (#[trigger] registry()[i]).name@ != name@,
        },
{
    let list = languages();
    let mut i: usize = 0;
    while i < 5
        invariant
            i <= 5,
            list@ == registry(),
            registry().len() == 5,
            forall|j: int| 0 <= j < i ==> (#[trigger] registry()[j]).name@ != name@,
        decreases 5 - i,
    {
        if same_text(list[i].name, name) {
            return Some(list[i]);
        }
        i = i + 1;
    }
    None
}

/// The first language of the list whose source files have the extension
/// `extension`.
pub fn find_by_extension(extension: &str) -> (found: Option<Language>)
    ensures
        match found {
            Some(language) => exists|i: int|
                0 <= i < registry().len() && registry()[i] == language && language.extension@
                    == extension@ && forall|j: int|
                    0 <= j < i ==> (#[trigger] registry()[j]).extension@ != extension@,
            None => forall|i: int|
                0 <= i < registry().len() ==> (#[trigger] registry()[i]).extension@
                    != extension@,
        },
{
    let list = languages();
    let mut i: usize = 0;
    while i < 5
        invariant
            i <= 5,
            list@ == registry(),
            registry().len() == 5,
            forall|j: int| 0 <= j < i ==> (#[trigger] registry()[j]).extension@ != extension@,
        decreases 5 - i,
    {
        if same_text(list[i].extension, extension) {
            return Some(list[i]);
        }
        i = i + 1;
    }
    None
}

/// Whether a file with the extension `extension` is a template: the
/// extension of template files is `r42`.
pub fn is_template_extension(extension: &str) -> (is_template: bool)
    ensures
        is_template == (extension@ == "r42"@),
{
    same_text(extension, "r42")
}

} // verus!
