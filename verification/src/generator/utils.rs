//! Small rendering helpers shared by both generators.

use crate::ast::Keywords;
use crate::lang::SupportedLang;
use vstd::prelude::*;

verus! {

/// The uppercase mapping of one character, as Unicode case mapping defines
/// it; a function of the character alone.
pub uninterp spec fn upper_of(c: char) -> Seq<char>;

/// Relies on `char::to_uppercase` of std: the Unicode uppercase mapping of
/// the character, depending on the character alone.
#[verifier::external_body]
fn char_upper(c: char) -> (r: String)
    ensures
        r@ == upper_of(c),
{
    c.to_uppercase().collect::<String>()
}

/// A string with its first character replaced by that character's uppercase
/// mapping.
pub open spec fn spec_capitalize(s: Seq<char>) -> Seq<char> {
    if s.len() == 0 {
        s
    } else {
        upper_of(s[0]) + s.skip(1)
    }
}

/// Capitalize the first character of an identifier.
pub fn capitalize(s: &str) -> (r: String)
    ensures
        r@ == spec_capitalize(s@),
{
    let n = s.unicode_len();
    if n == 0 {
        let r = String::new();
        proof {
            assert(r@ =~= s@);
        }
        r
    } else {
        let mut r = char_upper(s.get_char(0));
        let rest = s.substring_char(1, n);
        r.append(rest);
        r
    }
}

/// The text a primitive keyword renders as, per target.
pub open spec fn spec_keyword(k: Keywords, lang: SupportedLang) -> Seq<char> {
    match lang {
        SupportedLang::TypeScript => match k {
            Keywords::Any => "any"@,
            Keywords::Boolean => "boolean"@,
            Keywords::Number => "number"@,
            Keywords::String => "string"@,
        },
        SupportedLang::Go => match k {
            Keywords::Any => "interface{}"@,
            Keywords::Boolean => "bool"@,
            Keywords::Number => "int"@,
            Keywords::String => "string"@,
        },
    }
}

impl Keywords {
    /// Render a primitive keyword for the given target.
    pub fn to_string(&self, lang: SupportedLang) -> (r: String)
        ensures
            r@ == spec_keyword(*self, lang),
    {
        match lang {
            SupportedLang::TypeScript => match self {
                Keywords::Any => String::from_str("any"),
                Keywords::Boolean => String::from_str("boolean"),
                Keywords::Number => String::from_str("number"),
                Keywords::String => String::from_str("string"),
            },
            SupportedLang::Go => match self {
                Keywords::Any => String::from_str("interface{}"),
                Keywords::Boolean => String::from_str("bool"),
                Keywords::Number => String::from_str("int"),
                Keywords::String => String::from_str("string"),
            },
        }
    }
}

/// `n` spaces of indentation.
pub open spec fn spec_spaces(n: nat) -> Seq<char>
    decreases n,
{
    if n == 0 {
        Seq::empty()
    } else {
        spec_spaces((n - 1) as nat) + " "@
    }
}

/// Build `n` spaces of indentation.
pub fn spaces(n: usize) -> (r: String)
    ensures
        r@ == spec_spaces(n as nat),
{
    let mut r = String::new();
    let mut k: usize = 0;
    proof {
        assert(r@ =~= spec_spaces(0));
    }
    while k < n
        invariant
            k <= n,
            r@ == spec_spaces(k as nat),
        decreases n - k,
    {
        r.append(" ");
        k += 1;
    }
    r
}

} // verus!
