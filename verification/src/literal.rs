//! String literals of the emitted source text.
//!
//! Free text, such as a description, reaches the output only inside a string
//! literal. This module says which characters are written for each character of
//! the text, and proves that reading the literal gives the text back.
//!
//! The rule is the library's own, and it is small on purpose: a quote, a
//! backslash, a line feed, a carriage return and a tabulator are written as
//! escapes, every other character as itself. What is written is thereby a
//! function of the text alone, the same in every process, and it is known to
//! denote the text. A token library would write more escapes, and which ones
//! depends on where it runs: inside a procedural macro it asks the compiler.

use vstd::prelude::*;
use vstd::string::*;

verus! {

/// What `String::push` of std does, which vstd leaves unsaid: the character is
/// appended at the end, and nothing else changes.
pub assume_specification[ String::push ](s: &mut String, ch: char)
    ensures
        final(s)@ == old(s)@.push(ch),
;

/// The characters written for `c` between the quotes of a literal.
pub open spec fn escaped_char(c: char) -> Seq<char> {
    if c == '"' {
        seq!['\\', '"']
    } else if c == '\\' {
        seq!['\\', '\\']
    } else if c == '\n' {
        seq!['\\', 'n']
    } else if c == '\r' {
        seq!['\\', 'r']
    } else if c == '\t' {
        seq!['\\', 't']
    } else {
        seq![c]
    }
}

/// The characters written for `text` between the quotes of a literal.
pub open spec fn escaped(text: Seq<char>) -> Seq<char>
    decreases text.len(),
{
    if text.len() == 0 {
        Seq::empty()
    } else {
        escaped_char(text[0]) + escaped(text.skip(1))
    }
}

/// The string literal that denotes `text`.
pub open spec fn string_literal(text: Seq<char>) -> Seq<char> {
    seq!['"'] + escaped(text) + seq!['"']
}

/// The character that `c` stands for after a backslash.
pub open spec fn escape_named(c: char) -> char {
    if c == 'n' {
        '\n'
    } else if c == 'r' {
        '\r'
    } else if c == 't' {
        '\t'
    } else {
        c
    }
}

/// Whether `body` can stand between the quotes of a literal: every backslash
/// begins one of the five escapes that [`escaped_char`] writes, and no quote,
/// line break or tabulator stands outside an escape.
pub open spec fn is_literal_body(body: Seq<char>) -> bool
    decreases body.len(),
{
    if body.len() == 0 {
        true
    } else if body[0] == '\\' {
        &&& body.len() >= 2
        &&& (body[1] == '"' || body[1] == '\\' || body[1] == 'n' || body[1] == 'r' || body[1]
            == 't')
        &&& is_literal_body(body.skip(2))
    } else {
        &&& body[0] != '"'
        &&& body[0] != '\n'
        &&& body[0] != '\r'
        &&& body[0] != '\t'
        &&& is_literal_body(body.skip(1))
    }
}

/// The text that the body of a literal denotes.
pub open spec fn unescaped(body: Seq<char>) -> Seq<char>
    decreases body.len(),
{
    if body.len() == 0 {
        Seq::empty()
    } else if body[0] == '\\' && body.len() >= 2 {
        seq![escape_named(body[1])] + unescaped(body.skip(2))
    } else {
        seq![body[0]] + unescaped(body.skip(1))
    }
}

/// What is written for a text can stand between the quotes of a literal, and
/// the literal denotes exactly that text.
pub proof fn lemma_literal_denotes_text(text: Seq<char>)
    ensures
        is_literal_body(escaped(text)),
        unescaped(escaped(text)) == text,
    decreases text.len(),
{
    if text.len() > 0 {
        let c = text[0];
        let rest = text.skip(1);
        let body = escaped(text);
        lemma_literal_denotes_text(rest);
        if c == '"' || c == '\\' || c == '\n' || c == '\r' || c == '\t' {
            assert(body.skip(2) =~= escaped(rest));
            assert(escape_named(body[1]) == c);
        } else {
            assert(body.skip(1) =~= escaped(rest));
        }
        assert(seq![c] + rest =~= text);
    }
}

/// Escaping goes through a text from left to right, so it distributes over
/// concatenation.
pub proof fn lemma_escaped_concat(a: Seq<char>, b: Seq<char>)
    ensures
        escaped(a + b) == escaped(a) + escaped(b),
    decreases a.len(),
{
    if a.len() == 0 {
        assert(a + b =~= b);
        assert(escaped(a) + escaped(b) =~= escaped(b));
    } else {
        lemma_escaped_concat(a.skip(1), b);
        assert((a + b).skip(1) =~= a.skip(1) + b);
        assert((a + b)[0] == a[0]);
        assert(escaped_char(a[0]) + (escaped(a.skip(1)) + escaped(b)) =~= (escaped_char(a[0])
            + escaped(a.skip(1))) + escaped(b));
    }
}

/// Escaping a text that ends in `c` ends in the characters written for `c`.
pub proof fn lemma_escaped_push(text: Seq<char>, c: char)
    ensures
        escaped(text.push(c)) == escaped(text) + escaped_char(c),
{
    let last = seq![c];
    assert(escaped(last.skip(1)) =~= Seq::<char>::empty());
    assert(escaped(last) =~= escaped_char(c));
    assert(text.push(c) =~= text + last);
    lemma_escaped_concat(text, last);
}

/// Writes `text` as a string literal.
pub fn quote(text: &str) -> (literal: String)
    ensures
        literal@ == string_literal(text@),
{
    let mut literal = String::new();
    literal.push('"');
    for c in it: text.chars()
        invariant
            it.seq() == text@,
            literal@ == seq!['"'] + escaped(text@.take(it.index())),
    {
        proof {
            let done = text@.take(it.index());
            assert(text@.take(it.index() + 1) =~= done.push(c));
            lemma_escaped_push(done, c);
        }
        if c == '"' {
            literal.push('\\');
            literal.push('"');
        } else if c == '\\' {
            literal.push('\\');
            literal.push('\\');
        } else if c == '\n' {
            literal.push('\\');
            literal.push('n');
        } else if c == '\r' {
            literal.push('\\');
            literal.push('r');
        } else if c == '\t' {
            literal.push('\\');
            literal.push('t');
        } else {
            literal.push(c);
        }
    }
    proof {
        assert(text@.take(text@.len() as int) =~= text@);
    }
    literal.push('"');
    literal
}

} // verus!
