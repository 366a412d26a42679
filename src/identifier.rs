//! Validation of binding names.
//!
//! A binding name is spliced verbatim into script source as the name of a
//! declaration, so only plain identifiers are ever accepted:
//! `[A-Za-z_][A-Za-z0-9_]*`.
use vstd::prelude::*;

verus! {

/// An ASCII letter.
pub open spec fn is_ascii_letter(c: char) -> bool {
    ('a' <= c && c <= 'z') || ('A' <= c && c <= 'Z')
}

/// A character that may open an identifier: an ASCII letter or `_`.
pub open spec fn is_ident_start(c: char) -> bool {
    is_ascii_letter(c) || c == '_'
}

/// A character that may follow the first one: an ASCII letter, an ASCII
/// digit or `_`.
pub open spec fn is_ident_continue(c: char) -> bool {
    is_ident_start(c) || ('0' <= c && c <= '9')
}

/// `s` matches `^[A-Za-z_][A-Za-z0-9_]*$`.
pub open spec fn valid_identifier(s: Seq<char>) -> bool {
    &&& s.len() > 0
    &&& is_ident_start(s[0])
    &&& forall|i: int| 1 <= i < s.len() ==> #[trigger] is_ident_continue(s[i])
}

fn ident_start(c: char) -> (r: bool)
    ensures
        r == is_ident_start(c),
{
    ('a' <= c && c <= 'z') || ('A' <= c && c <= 'Z') || c == '_'
}

fn ident_continue(c: char) -> (r: bool)
    ensures
        r == is_ident_continue(c),
{
    ident_start(c) || ('0' <= c && c <= '9')
}

/// Decides whether `name` is safe to use as the name of a script
/// declaration: it is non-empty, opens with an ASCII letter or `_`, and goes
/// on with ASCII letters, digits and `_` only.
pub fn is_valid_variable_name(name: &str) -> (r: bool)
    ensures
        r == valid_identifier(name@),
{
    let mut first = true;
    let mut ok = true;
    for c in it: name.chars()
        invariant
            it.seq() == name@,
            first == (it.index() == 0),
            ok == (it.index() == 0 || (is_ident_start(name@[0])
                && forall|i: int| 1 <= i < it.index() ==> #[trigger] is_ident_continue(name@[i]))),
    {
        if first {
            ok = ident_start(c);
            first = false;
        } else {
            ok = ok && ident_continue(c);
        }
    }
    ok && !first
}

/// A name that holds, anywhere, a character other than an ASCII letter, an
/// ASCII digit or `_` (a `;`, a space, a quote, a `.`, a `-`, ...) is never a
/// valid identifier.
pub proof fn lemma_foreign_char_rejected(s: Seq<char>, i: int)
    requires
        0 <= i < s.len(),
        !is_ident_continue(s[i]),
    ensures
        !valid_identifier(s),
{
    if i > 0 {
        assert(!is_ident_continue(s[i]));
    }
}

/// A name that opens with an ASCII digit is never a valid identifier, and
/// neither is the empty name.
pub proof fn lemma_bad_start_rejected(s: Seq<char>)
    requires
        s.len() == 0 || ('0' <= s[0] && s[0] <= '9'),
    ensures
        !valid_identifier(s),
{
}

/// Validation depends on the text of the name alone: asking twice about
/// the same text gives the same answer.
pub proof fn lemma_validation_repeatable(a: Seq<char>, b: Seq<char>)
    requires
        a == b,
    ensures
        valid_identifier(a) == valid_identifier(b),
{
}

} // verus!
