//! Templates for Rust: the transform with the two Rust writers built in.

use vstd::prelude::*;
use crate::langs::{
    rust_expression_statement, rust_expression_writer, rust_template_statement,
    rust_template_writer, LanguageWriter,
};
use crate::r42t::{generated, written};

verus! {

/// Writes the buffered literal text as a Rust statement and empties the
/// buffer.
pub fn write_template(code_buffer: &mut String, template_buffer: &mut String)
    ensures
        final(code_buffer)@ == old(code_buffer)@ + written(
            old(template_buffer)@,
            rust_template_statement(old(template_buffer)@),
        ),
        final(template_buffer)@ == Seq::<char>::empty(),
{
    rust_template_writer(code_buffer, template_buffer);
    template_buffer.clear();
}

/// Writes the buffered expression as a Rust statement and empties the
/// buffer.
pub fn write_expression(code_buffer: &mut String, expression_buffer: &mut String)
    ensures
        final(code_buffer)@ == old(code_buffer)@ + written(
            old(expression_buffer)@,
            rust_expression_statement(old(expression_buffer)@),
        ),
        final(expression_buffer)@ == Seq::<char>::empty(),
{
    rust_expression_writer(code_buffer, expression_buffer);
    expression_buffer.clear();
}

/// Converts the template `input` into Rust code.
pub fn transform(input: &str) -> (code: String)
    ensures
        code@ == generated(
            input@,
            &LanguageWriter::RustTemplate,
            &LanguageWriter::RustExpression,
        ),
{
    crate::r42t::transform(input, &LanguageWriter::RustTemplate, &LanguageWriter::RustExpression)
}

} // verus!
