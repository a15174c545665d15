//! The transform engine: one pass over a template that hands literal and
//! expression fragments to two writers and copies code through.

use vstd::prelude::*;
use crate::escape::{append_escaped, escape_text, lemma_escape_text_push};
use crate::markers::{
    closes_at, lemma_next_close, lemma_next_open, next_close, next_open, opens_at,
    opens_expression_at,
};
use crate::text::decode;

verus! {

/// What a writer adds to the generated code when it is handed `fragment`,
/// where `statement` is what it writes for that fragment: nothing for the
/// empty fragment, and the statement otherwise.
pub open spec fn written(fragment: Seq<char>, statement: Seq<char>) -> Seq<char> {
    if fragment.len() == 0 {
        Seq::empty()
    } else {
        statement
    }
}

/// Turns one captured fragment into statements of the target language.
///
/// A writer appends to the generated code and does nothing else; what it
/// appends for a fragment that is not empty is `statement` of that fragment,
/// and for the empty fragment it appends nothing.
pub trait Writer {
    /// The text appended for the non-empty `fragment`.
    spec fn statement(&self, fragment: Seq<char>) -> Seq<char>;

    /// Appends the statements for `fragment` to `code_buffer`.
    fn write(&self, code_buffer: &mut String, fragment: &String)
        ensures
            final(code_buffer)@ == old(code_buffer)@ + written(
                fragment@,
                self.statement(fragment@),
            ),
    ;
}

/// What writer `w` adds to the generated code when it is handed `fragment`.
pub open spec fn emitted<W: Writer>(w: &W, fragment: Seq<char>) -> Seq<char> {
    written(fragment, w.statement(fragment))
}

/// The writer that appends each fragment as it is: what it leaves in the
/// generated code is the fragments themselves, one after the other.
#[derive(Copy, Clone, Debug)]
pub struct Verbatim;

impl Writer for Verbatim {
    open spec fn statement(&self, fragment: Seq<char>) -> Seq<char> {
        fragment
    }

    fn write(&self, code_buffer: &mut String, fragment: &String) {
        code_buffer.push_str(fragment.as_str());
        assert(fragment@ =~= written(fragment@, fragment@));
    }
}

/// The code generated for the part of `s` from `from` on, where `from` is a
/// position in literal text.
///
/// The literal text runs up to the next opening marker. It is escaped and
/// given to the literal writer; what follows the marker is an expression
/// when the marker is `<#=`, and code otherwise.
pub open spec fn literal_from<L: Writer, E: Writer>(
    s: Seq<char>,
    from: int,
    literal: &L,
    expression: &E,
) -> Seq<char>
    decreases s.len() - from, 1int,
    when 0 <= from <= s.len()
{
    let open = next_open(s, from);
    let text = emitted(literal, escape_text(s.subrange(from, open)));
    if open >= s.len() {
        text
    } else if opens_expression_at(s, open) {
        proof {
            lemma_next_open(s, from);
        }
        text + expression_from(s, open + 3, literal, expression)
    } else {
        proof {
            lemma_next_open(s, from);
        }
        text + code_from(s, open + 2, literal, expression)
    }
}

/// The code generated for the part of `s` from `from` on, where `from` is a
/// position inside a code tag: the characters up to the next closing marker
/// as they are, then what the literal text after the marker gives.
pub open spec fn code_from<L: Writer, E: Writer>(
    s: Seq<char>,
    from: int,
    literal: &L,
    expression: &E,
) -> Seq<char>
    decreases s.len() - from, 0int,
    when 0 <= from <= s.len()
{
    let close = next_close(s, from);
    if close >= s.len() {
        s.subrange(from, s.len() as int)
    } else {
        proof {
            lemma_next_close(s, from);
        }
        s.subrange(from, close) + literal_from(s, close + 2, literal, expression)
    }
}

/// The code generated for the part of `s` from `from` on, where `from` is a
/// position inside an expression tag: the characters up to the next closing
/// marker go unescaped to the expression writer, then follows what the
/// literal text after the marker gives.
pub open spec fn expression_from<L: Writer, E: Writer>(
    s: Seq<char>,
    from: int,
    literal: &L,
    expression: &E,
) -> Seq<char>
    decreases s.len() - from, 0int,
    when 0 <= from <= s.len()
{
    let close = next_close(s, from);
    if close >= s.len() {
        emitted(expression, s.subrange(from, s.len() as int))
    } else {
        proof {
            lemma_next_close(s, from);
        }
        emitted(expression, s.subrange(from, close)) + literal_from(
            s,
            close + 2,
            literal,
            expression,
        )
    }
}

/// The code generated for the template `s` by the two writers.
pub open spec fn generated<L: Writer, E: Writer>(
    s: Seq<char>,
    literal: &L,
    expression: &E,
) -> Seq<char> {
    literal_from(s, 0, literal, expression)
}

/// A template without an opening marker is all literal text: with a literal
/// writer that appends each fragment unchanged, the code generated for it is
/// its escaped text, whatever the expression writer is.
pub proof fn lemma_plain_template<L: Writer, E: Writer>(s: Seq<char>, literal: &L, expression: &E)
    requires
        forall|i: int| !opens_at(s, i),
        forall|fragment: Seq<char>|
            fragment.len() > 0 ==> #[trigger] literal.statement(fragment) == fragment,
    ensures
        generated(s, literal, expression) == escape_text(s),
{
    lemma_next_open(s, 0);
    assert(s.subrange(0, s.len() as int) =~= s);
    assert(emitted(literal, escape_text(s)) =~= escape_text(s));
}

/// The lexical region that the scan is in.
enum TemplateContext {
    /// Literal text outside any tag.
    Template,
    /// Inside a `<# .. #>` tag, whose content is copied through.
    Code,
    /// Inside a `<#= .. #>` tag, whose content is an expression.
    Expression,
}

/// What holds between two steps of the scan, at position `idx` of `s`.
///
/// `start` is where the region that the scan is in began, and `done` is the
/// code that had been generated when it began. Only the buffer of that
/// region can hold anything, and what the rest of the template still has to
/// give, added to what is there, is the code generated for all of `s`.
spec fn scanning<L: Writer, E: Writer>(
    context: TemplateContext,
    s: Seq<char>,
    start: int,
    idx: int,
    done: Seq<char>,
    code: Seq<char>,
    template_buffer: Seq<char>,
    expression_buffer: Seq<char>,
    literal: &L,
    expression: &E,
) -> bool {
    &&& 0 <= start <= idx <= s.len()
    &&& match context {
        TemplateContext::Template => {
            &&& code == done
            &&& template_buffer == escape_text(s.subrange(start, idx))
            &&& expression_buffer.len() == 0
            &&& next_open(s, start) == next_open(s, idx)
            &&& done + literal_from(s, start, literal, expression) == generated(
                s,
                literal,
                expression,
            )
        },
        TemplateContext::Code => {
            &&& code == done + s.subrange(start, idx)
            &&& template_buffer.len() == 0
            &&& expression_buffer.len() == 0
            &&& next_close(s, start) == next_close(s, idx)
            &&& done + code_from(s, start, literal, expression) == generated(
                s,
                literal,
                expression,
            )
        },
        TemplateContext::Expression => {
            &&& code == done
            &&& template_buffer.len() == 0
            &&& expression_buffer == s.subrange(start, idx)
            &&& next_close(s, start) == next_close(s, idx)
            &&& done + expression_from(s, start, literal, expression) == generated(
                s,
                literal,
                expression,
            )
        },
    }
}

/// Hands a buffer that holds something to `writer`, and empties it.
fn flush<W: Writer>(code_buffer: &mut String, buffer: &mut String, writer: &W)
    ensures
        final(code_buffer)@ == old(code_buffer)@ + emitted(writer, old(buffer)@),
        final(buffer)@ == Seq::<char>::empty(),
{
    if !buffer.as_str().is_empty() {
        writer.write(code_buffer, buffer);
    } else {
        assert(code_buffer@ + Seq::<char>::empty() =~= code_buffer@);
    }
    buffer.clear();
}

/// Converts the template `input` into code, handing each run of literal text,
/// escaped, to `template_writer` and each expression to `expression_writer`.
///
/// Neither writer is called with an empty fragment, and a tag that the
/// template does not close runs to its end.
pub fn transform<L: Writer, E: Writer>(
    input: &str,
    template_writer: &L,
    expression_writer: &E,
) -> (code: String)
    ensures
        code@ == generated(input@, template_writer, expression_writer),
{
    let mut code_buffer = String::new();
    let mut expression_buffer = String::new();
    let mut template_buffer = String::new();

    let mut context = TemplateContext::Template;

    let input: Vec<char> = decode(input);
    let n = input.len();
    let ghost s = input@;
    let ghost mut start: int = 0;
    let ghost mut done: Seq<char> = Seq::empty();

    let mut idx: usize = 0;
    proof {
        assert(s.subrange(0, 0) =~= Seq::<char>::empty());
        assert(done + literal_from(s, 0, template_writer, expression_writer) =~= generated(
            s,
            template_writer,
            expression_writer,
        ));
    }
    while idx < n
        invariant
            n == input.len(),
            s == input@,
            scanning(
                context,
                s,
                start,
                idx as int,
                done,
                code_buffer@,
                template_buffer@,
                expression_buffer@,
                template_writer,
                expression_writer,
            ),
        decreases n - idx,
    {
        let c = input[idx];
        match context {
            TemplateContext::Template => {
                if c == '<' && idx + 1 < n && input[idx + 1] == '#' {
                    let ghost text = emitted(template_writer, template_buffer@);
                    flush(&mut code_buffer, &mut template_buffer, template_writer);
                    proof {
                        assert(opens_at(s, idx as int));
                    }
                    if idx + 2 < n && input[idx + 2] == '=' {
                        proof {
                            let rest = expression_from(
                                s,
                                idx + 3,
                                template_writer,
                                expression_writer,
                            );
                            assert(opens_expression_at(s, idx as int));
                            assert(done + (text + rest) =~= (done + text) + rest);
                            done = done + text;
                            start = idx + 3;
                            assert(s.subrange(start, start) =~= expression_buffer@);
                        }
                        idx = idx + 3;
                        context = TemplateContext::Expression;
                    } else {
                        proof {
                            let rest = code_from(s, idx + 2, template_writer, expression_writer);
                            assert(!opens_expression_at(s, idx as int));
                            assert(done + (text + rest) =~= (done + text) + rest);
                            done = done + text;
                            start = idx + 2;
                            assert(s.subrange(start, start) =~= Seq::<char>::empty());
                            assert(done + s.subrange(start, start) =~= done);
                        }
                        idx = idx + 2;
                        context = TemplateContext::Code;
                    }
                } else {
                    append_escaped(&mut template_buffer, c);
                    proof {
                        assert(!opens_at(s, idx as int));
                        lemma_escape_text_push(s.subrange(start, idx as int), c);
                        assert(s.subrange(start, idx as int).push(c) =~= s.subrange(
                            start,
                            idx + 1,
                        ));
                    }
                    idx = idx + 1;
                }
            },
            TemplateContext::Code => {
                if c == '#' && idx + 1 < n && input[idx + 1] == '>' {
                    proof {
                        let copied = s.subrange(start, idx as int);
                        let rest = literal_from(s, idx + 2, template_writer, expression_writer);
                        assert(closes_at(s, idx as int));
                        assert(done + (copied + rest) =~= (done + copied) + rest);
                        done = code_buffer@;
                        start = idx + 2;
                        assert(s.subrange(start, start) =~= template_buffer@);
                        assert(escape_text(s.subrange(start, start)) =~= template_buffer@);
                    }
                    idx = idx + 2;
                    context = TemplateContext::Template;
                } else {
                    code_buffer.push(c);
                    proof {
                        assert(!closes_at(s, idx as int));
                        assert(s.subrange(start, idx as int).push(c) =~= s.subrange(
                            start,
                            idx + 1,
                        ));
                        assert((done + s.subrange(start, idx as int)).push(c) =~= done
                            + s.subrange(start, idx + 1));
                    }
                    idx = idx + 1;
                }
            },
            TemplateContext::Expression => {
                if c == '#' && idx + 1 < n && input[idx + 1] == '>' {
                    let ghost text = emitted(expression_writer, expression_buffer@);
                    flush(&mut code_buffer, &mut expression_buffer, expression_writer);
                    proof {
                        let rest = literal_from(s, idx + 2, template_writer, expression_writer);
                        assert(closes_at(s, idx as int));
                        assert(done + (text + rest) =~= (done + text) + rest);
                        done = done + text;
                        start = idx + 2;
                        assert(s.subrange(start, start) =~= template_buffer@);
                        assert(escape_text(s.subrange(start, start)) =~= template_buffer@);
                    }
                    idx = idx + 2;
                    context = TemplateContext::Template;
                } else {
                    expression_buffer.push(c);
                    proof {
                        assert(!closes_at(s, idx as int));
                        assert(s.subrange(start, idx as int).push(c) =~= s.subrange(
                            start,
                            idx + 1,
                        ));
                    }
                    idx = idx + 1;
                }
            },
        }
    }

    match context {
        TemplateContext::Template => {
            flush(&mut code_buffer, &mut template_buffer, template_writer);
        },
        TemplateContext::Expression => {
            flush(&mut code_buffer, &mut expression_buffer, expression_writer);
        },
        TemplateContext::Code => {},
    }

    code_buffer
}

} // verus!
