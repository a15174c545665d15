//! Escaping of literal text for embedding in a double-quoted string literal.

use vstd::prelude::*;

verus! {

/// The characters that stand for `c` inside a double-quoted string literal:
/// a backslash and a second character for the double quote, the backslash,
/// NUL, line feed, carriage return and tab, and `c` itself otherwise.
pub open spec fn escape_char(c: char) -> Seq<char> {
    if c == '"' {
        seq!['\\', '"']
    } else if c == '\\' {
        seq!['\\', '\\']
    } else if c == '\0' {
        seq!['\\', '0']
    } else if c == '\n' {
        seq!['\\', 'n']
    } else if c == '\r' {
        seq!['\\', 'r']
    } else if c == '\t' {
        seq!['\\', 't']
    } else {
        seq![c]
    }
}

/// Whether `c` is one of the six characters that are written as an escape.
pub open spec fn needs_escape(c: char) -> bool {
    c == '"' || c == '\\' || c == '\0' || c == '\n' || c == '\r' || c == '\t'
}

/// Each of the six special characters becomes a backslash and one more
/// character; every other character stays as it is.
pub proof fn lemma_escape_char_forms(c: char)
    ensures
        needs_escape(c) ==> escape_char(c).len() == 2 && escape_char(c)[0] == '\\',
        !needs_escape(c) ==> escape_char(c) == seq![c],
{
}

/// The escaped form of a whole text: the escaped forms of its characters,
/// one after the other.
pub open spec fn escape_text(text: Seq<char>) -> Seq<char>
    decreases text.len(),
{
    if text.len() == 0 {
        Seq::empty()
    } else {
        escape_text(text.drop_last()) + escape_char(text.last())
    }
}

/// Escaping one more character extends the escaped text at its end.
pub proof fn lemma_escape_text_push(text: Seq<char>, c: char)
    ensures
        escape_text(text.push(c)) == escape_text(text) + escape_char(c),
{
    assert(text.push(c).drop_last() =~= text);
}

/// Escaping distributes over concatenation.
pub proof fn lemma_escape_text_concat(a: Seq<char>, b: Seq<char>)
    ensures
        escape_text(a + b) == escape_text(a) + escape_text(b),
    decreases b.len(),
{
    if b.len() == 0 {
        assert(a + b =~= a);
        assert(escape_text(a) + escape_text(b) =~= escape_text(a));
    } else {
        lemma_escape_text_concat(a, b.drop_last());
        assert((a + b).drop_last() =~= a + b.drop_last());
        assert((a + b).last() == b.last());
        assert(escape_text(a) + (escape_text(b.drop_last()) + escape_char(b.last()))
            =~= (escape_text(a) + escape_text(b.drop_last())) + escape_char(b.last()));
    }
}

/// A text without any of the six special characters is its own escaped form.
pub proof fn lemma_escape_text_plain(text: Seq<char>)
    requires
        forall|i: int| 0 <= i < text.len() ==> !needs_escape(#[trigger] text[i]),
    ensures
        escape_text(text) == text,
    decreases text.len(),
{
    if text.len() > 0 {
        lemma_escape_text_plain(text.drop_last());
        assert(escape_char(text.last()) == seq![text.last()]);
        assert(text.drop_last() + seq![text.last()] =~= text);
    }
}

/// Appends `c` to `buffer` in its escaped form.
pub fn append_escaped(buffer: &mut String, c: char)
    ensures
        final(buffer)@ == old(buffer)@ + escape_char(c),
{
    if c == '"' {
        buffer.push('\\');
        buffer.push('"');
    } else if c == '\\' {
        buffer.push('\\');
        buffer.push('\\');
    } else if c == '\0' {
        buffer.push('\\');
        buffer.push('0');
    } else if c == '\n' {
        buffer.push('\\');
        buffer.push('n');
    } else if c == '\r' {
        buffer.push('\\');
        buffer.push('r');
    } else if c == '\t' {
        buffer.push('\\');
        buffer.push('t');
    } else {
        buffer.push(c);
    }
}

} // verus!
