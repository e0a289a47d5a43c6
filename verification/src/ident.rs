//! Identifier sanitizing: names read out of a process become names that can
//! stand in the emitted source.

use crate::text::same_text;
use vstd::prelude::*;

verus! {

/// An output language.
#[derive(Clone, Copy, PartialEq, Eq, Structural, Debug)]
pub enum Dialect {
    /// Rust source, in files ending in `.rs`.
    Rust,
}

/// Whether `c` is an ASCII letter.
pub open spec fn is_ascii_letter(c: char) -> bool {
    ('a' <= c && c <= 'z') || ('A' <= c && c <= 'Z')
}

/// Whether `c` is an ASCII digit.
pub open spec fn is_ascii_digit(c: char) -> bool {
    '0' <= c && c <= '9'
}

/// Whether `c` is an ASCII letter, an ASCII digit or an underscore.
pub open spec fn is_word_char(c: char) -> bool {
    is_ascii_letter(c) || is_ascii_digit(c) || c == '_'
}

/// Whether `c` is a lower-case ASCII letter, an ASCII digit or an underscore.
pub open spec fn is_lower_word_char(c: char) -> bool {
    ('a' <= c && c <= 'z') || is_ascii_digit(c) || c == '_'
}

/// Whether every character of `s` is an ASCII letter, digit or underscore.
pub open spec fn all_word_chars(s: Seq<char>) -> bool {
    forall|i: int| 0 <= i < s.len() ==> is_word_char(#[trigger] s[i])
}

/// Whether every character of `s` is a lower-case ASCII letter, a digit or an
/// underscore.
pub open spec fn all_lower_word_chars(s: Seq<char>) -> bool {
    forall|i: int| 0 <= i < s.len() ==> is_lower_word_char(#[trigger] s[i])
}

/// The snake-case form of `s`: its words in lower case, joined by single
/// underscores.
pub uninterp spec fn snake_case_text(s: Seq<char>) -> Seq<char>;

/// Formats `heck::AsSnakeCase(s)`. heck splits `s` into words at every
/// character that is not alphanumeric and at changes of case, writes each
/// word through `char::to_lowercase` and puts one `_` between two words. The
/// contract names that result, and claims one thing more of it: from ASCII
/// letters, digits and underscores only lower-case ASCII letters, digits and
/// underscores come out.
#[verifier::external_body]
fn snake_case(s: &str) -> (out: String)
    ensures
        out@ == snake_case_text(s@),
        all_word_chars(s@) ==> all_lower_word_chars(out@),
{
    format!("{}", heck::AsSnakeCase(s))
}

impl Dialect {
    /// Whether `c` may stand in an identifier of this dialect as it is.
    pub open spec fn legal_char(self, c: char) -> bool {
        match self {
            Dialect::Rust => is_word_char(c),
        }
    }

    /// Whether `name` is a word that the dialect keeps for itself and that
    /// the emitters escape.
    pub open spec fn reserved(self, name: Seq<char>) -> bool {
        match self {
            Dialect::Rust => name == "use"@,
        }
    }

    /// What the dialect puts in front of a reserved word to make a name of it.
    pub open spec fn escape_prefix(self) -> Seq<char> {
        match self {
            Dialect::Rust => "r#"@,
        }
    }

    /// `name`, escaped where it is reserved.
    pub open spec fn escaped(self, name: Seq<char>) -> Seq<char> {
        if self.reserved(name) {
            self.escape_prefix() + name
        } else {
            name
        }
    }

    /// `s` with every character that is not legal replaced by an underscore.
    pub open spec fn slug(self, s: Seq<char>) -> Seq<char> {
        Seq::new(
            s.len(),
            |i: int|
                if self.legal_char(s[i]) {
                    s[i]
                } else {
                    '_'
                },
        )
    }

    /// The name of the namespace that holds what was read from `module`.
    pub open spec fn namespace(self, module: Seq<char>) -> Seq<char> {
        snake_case_text(self.slug(module))
    }

    /// Whether `s` holds legal characters only.
    pub open spec fn legal_text(self, s: Seq<char>) -> bool {
        forall|i: int| 0 <= i < s.len() ==> self.legal_char(#[trigger] s[i])
    }

    /// Whether `s` has the form of an identifier: legal characters only, not
    /// starting with a digit, and more than a lone underscore.
    pub open spec fn is_identifier(self, s: Seq<char>) -> bool {
        &&& s.len() > 0
        &&& self.legal_text(s)
        &&& !is_ascii_digit(s[0])
        &&& s != seq!['_']
    }

    /// Whether `c` may stand in an identifier as it is.
    pub fn is_legal_char(&self, c: char) -> (r: bool)
        ensures
            r == self.legal_char(c),
    {
        match self {
            Dialect::Rust => (c >= 'a' && c <= 'z') || (c >= 'A' && c <= 'Z') || (c >= '0' && c
                <= '9') || c == '_',
        }
    }

    /// Whether `name` is a reserved word.
    pub fn is_reserved(&self, name: &str) -> (r: bool)
        ensures
            r == self.reserved(name@),
    {
        match self {
            Dialect::Rust => same_text(name, "use"),
        }
    }

    /// Escapes `name` where it is a reserved word, and hands it back
    /// unchanged where it is not.
    pub fn escape_reserved(&self, name: &str) -> (out: String)
        ensures
            out@ == self.escaped(name@),
    {
        let mut out = String::new();
        if self.is_reserved(name) {
            match self {
                Dialect::Rust => out.append("r#"),
            }
        }
        out.append(name);
        out
    }

    /// Replaces every character of `input` that is not legal in an
    /// identifier by an underscore.
    pub fn slugify(&self, input: &str) -> (out: String)
        ensures
            out@ == self.slug(input@),
    {
        let mut out = String::new();
        for c in it: input.chars()
            invariant
                it.seq() == input@,
                out@ == self.slug(input@.take(it.index() as int)),
        {
            if self.is_legal_char(c) {
                out.push(c);
            } else {
                out.push('_');
            }
        }
        out
    }

    /// The name of the namespace for `module`: its slug in snake case. What
    /// comes out holds legal characters only, so it is an identifier unless
    /// it is empty, starts with a digit or is a lone underscore.
    pub fn namespace_name(&self, module: &str) -> (out: String)
        ensures
            out@ == self.namespace(module@),
            self.legal_text(out@),
            self.is_identifier(out@) <==> out@.len() > 0 && !is_ascii_digit(out@[0]) && out@
                != seq!['_'],
    {
        let slug = self.slugify(module);
        let out = snake_case(slug.as_str());
        out
    }
}

/// A slug is as long as the text it was made from, holds legal characters
/// only, and keeps every character that was legal already.
pub proof fn lemma_slug_legal(dialect: Dialect, s: Seq<char>)
    ensures
        dialect.slug(s).len() == s.len(),
        forall|i: int| 0 <= i < s.len() ==> dialect.legal_char(#[trigger] dialect.slug(s)[i]),
        forall|i: int|
            0 <= i < s.len() && dialect.legal_char(s[i]) ==> #[trigger] dialect.slug(s)[i] == s[i],
{
}

/// Escaping keeps apart what was apart: two different names made of
/// letters, digits and underscores stay different.
pub proof fn lemma_escape_without_collision(dialect: Dialect, a: Seq<char>, b: Seq<char>)
    requires
        all_word_chars(a),
        all_word_chars(b),
        a != b,
    ensures
        dialect.escaped(a) != dialect.escaped(b),
{
    reveal_strlit("r#");
    if dialect.escaped(a) == dialect.escaped(b) {
        if dialect.reserved(a) && !dialect.reserved(b) {
            assert(is_word_char(b[1]));
        }
        if dialect.reserved(b) && !dialect.reserved(a) {
            assert(is_word_char(a[1]));
        }
    }
}

/// Making a slug of a slug changes nothing.
pub proof fn lemma_slug_idempotent(dialect: Dialect, s: Seq<char>)
    ensures
        dialect.slug(dialect.slug(s)) == dialect.slug(s),
{
}

} // verus!
