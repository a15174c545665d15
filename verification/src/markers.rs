//! Where the tag markers `<#`, `<#=` and `#>` stand in a template.

use vstd::prelude::*;

verus! {

/// An opening marker `<#` starts at position `i` of `s`.
pub open spec fn opens_at(s: Seq<char>, i: int) -> bool {
    0 <= i && i + 1 < s.len() && s[i] == '<' && s[i + 1] == '#'
}

/// The opening marker at `i` is the three-character form `<#=`, which
/// starts an expression rather than code.
pub open spec fn opens_expression_at(s: Seq<char>, i: int) -> bool {
    opens_at(s, i) && i + 2 < s.len() && s[i + 2] == '='
}

/// A closing marker `#>` starts at position `i` of `s`.
pub open spec fn closes_at(s: Seq<char>, i: int) -> bool {
    0 <= i && i + 1 < s.len() && s[i] == '#' && s[i + 1] == '>'
}

/// The position of the first opening marker at or after `from`, or the
/// length of `s` where there is none.
pub open spec fn next_open(s: Seq<char>, from: int) -> int
    decreases s.len() - from,
{
    if from >= s.len() {
        s.len() as int
    } else if opens_at(s, from) {
        from
    } else {
        next_open(s, from + 1)
    }
}

/// The position of the first closing marker at or after `from`, or the
/// length of `s` where there is none.
pub open spec fn next_close(s: Seq<char>, from: int) -> int
    decreases s.len() - from,
{
    if from >= s.len() {
        s.len() as int
    } else if closes_at(s, from) {
        from
    } else {
        next_close(s, from + 1)
    }
}

/// `next_open` is the least position from `from` on with an opening marker.
pub proof fn lemma_next_open(s: Seq<char>, from: int)
    requires
        0 <= from <= s.len(),
    ensures
        from <= next_open(s, from) <= s.len(),
        next_open(s, from) < s.len() ==> opens_at(s, next_open(s, from)),
        forall|i: int| from <= i < next_open(s, from) ==> !opens_at(s, i),
    decreases s.len() - from,
{
    if from < s.len() && !opens_at(s, from) {
        lemma_next_open(s, from + 1);
    }
}

/// `next_close` is the least position from `from` on with a closing marker.
pub proof fn lemma_next_close(s: Seq<char>, from: int)
    requires
        0 <= from <= s.len(),
    ensures
        from <= next_close(s, from) <= s.len(),
        next_close(s, from) < s.len() ==> closes_at(s, next_close(s, from)),
        forall|i: int| from <= i < next_close(s, from) ==> !closes_at(s, i),
    decreases s.len() - from,
{
    if from < s.len() && !closes_at(s, from) {
        lemma_next_close(s, from + 1);
    }
}

} // verus!
