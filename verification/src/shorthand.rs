//! The shorthand: an icon's identifier alone, expanded to the expression that
//! widens the icon into the selector.

use vstd::prelude::*;
use vstd::string::*;

verus! {

/// One token of the shorthand's input, by its kind. An identifier carries its
/// text; of the other kinds nothing is read.
#[derive(Debug, PartialEq, Eq)]
pub enum Token {
    /// A delimited group of tokens.
    Group,
    /// An identifier, with its text.
    Ident(String),
    /// A punctuation character.
    Punct,
    /// A literal: a number, a string or a character.
    Literal,
}

/// Why an input is not a shorthand. Each value names the rule that the input
/// breaks.
#[derive(Debug, Clone, Copy, PartialEq, Eq, Structural)]
pub enum ShorthandError {
    /// The input holds no token.
    Empty,
    /// The first token is not an identifier.
    NotAnIdentifier,
    /// A token follows the identifier.
    TrailingTokens,
    /// The identifier has fewer than three characters, so no icon name
    /// follows the set prefix.
    TooShort,
}

/// The set prefix of an identifier: its first two characters.
pub open spec fn set_prefix(ident: Seq<char>) -> Seq<char>
    recommends
        ident.len() >= 2,
{
    ident.subrange(0, 2)
}

/// The icon name of an identifier: what follows its first two characters.
pub open spec fn icon_name(ident: Seq<char>) -> Seq<char>
    recommends
        ident.len() >= 2,
{
    ident.subrange(2, ident.len() as int)
}

/// The expression that selects the icon `name` of the set `prefix`: a call
/// of the selector's `from` on the icon `<prefix><name>`, both named by full
/// paths from `icondata`, so that it means the same whatever the caller has
/// imported.
pub open spec fn expansion(prefix: Seq<char>, name: Seq<char>) -> Seq<char> {
    "icondata::Icon::from(icondata::"@ + prefix + name + ")"@
}

/// What the shorthand makes of an input: the expansion of a single
/// identifier of at least three characters, and for every other input the
/// first rule that it breaks.
pub open spec fn shorthand(tokens: Seq<Token>) -> Result<Seq<char>, ShorthandError> {
    if tokens.len() == 0 {
        Err(ShorthandError::Empty)
    } else {
        match tokens[0] {
            Token::Ident(ident) => {
                if tokens.len() > 1 {
                    Err(ShorthandError::TrailingTokens)
                } else if ident@.len() < 3 {
                    Err(ShorthandError::TooShort)
                } else {
                    Ok(expansion(set_prefix(ident@), icon_name(ident@)))
                }
            },
            _ => Err(ShorthandError::NotAnIdentifier),
        }
    }
}

impl ShorthandError {
    /// The text of the message for each error.
    pub open spec fn message_text(self) -> Seq<char> {
        match self {
            ShorthandError::Empty => "Expected an identifier, but received an empty token stream."@,
            ShorthandError::NotAnIdentifier => "Expected an identifier, but received a different token type."@,
            ShorthandError::TrailingTokens => "Expected only one identifier, but received multiple tokens."@,
            ShorthandError::TooShort => "Expected a two-character set prefix followed by an icon name, but received a shorter identifier."@,
        }
    }

    /// The message that reports the error.
    pub fn message(&self) -> (r: &'static str)
        ensures
            r@ == self.message_text(),
    {
        match self {
            ShorthandError::Empty => "Expected an identifier, but received an empty token stream.",
            ShorthandError::NotAnIdentifier => "Expected an identifier, but received a different token type.",
            ShorthandError::TrailingTokens => "Expected only one identifier, but received multiple tokens.",
            ShorthandError::TooShort => "Expected a two-character set prefix followed by an icon name, but received a shorter identifier.",
        }
    }
}

/// Expands a shorthand. The input must be one identifier of at least three
/// characters, a set prefix of two and an icon name; the result is the text
/// of the expression that widens that icon into the selector. Neither the
/// set nor the icon is looked up: an identifier that names no icon expands
/// to an expression that names none.
pub fn icon(tokens: &[Token]) -> (r: Result<String, ShorthandError>)
    ensures
        shorthand(tokens@) matches Ok(text) ==> r matches Ok(s) && s@ == text,
        shorthand(tokens@) matches Err(e) ==> r == Err::<String, ShorthandError>(e),
{
    if tokens.len() == 0 {
        return Err(ShorthandError::Empty);
    }
    match &tokens[0] {
        Token::Ident(ident) => {
            if tokens.len() > 1 {
                return Err(ShorthandError::TrailingTokens);
            }
            let ident = ident.as_str();
            let n = ident.unicode_len();
            if n < 3 {
                return Err(ShorthandError::TooShort);
            }
            let prefix = ident.substring_char(0, 2);
            let name = ident.substring_char(2, n);
            let mut text = String::from_str("icondata::Icon::from(icondata::");
            text.append(prefix);
            text.append(name);
            text.append(")");
            Ok(text)
        },
        _ => Err(ShorthandError::NotAnIdentifier),
    }
}

/// The expansion holds the identifier as it was written: prefix and name,
/// put together again, are the identifier that was split.
pub proof fn lemma_expansion_holds_identifier(ident: Seq<char>)
    requires
        ident.len() >= 2,
    ensures
        expansion(set_prefix(ident), icon_name(ident)) == "icondata::Icon::from(icondata::"@ + ident
            + ")"@,
{
    assert(set_prefix(ident) + icon_name(ident) =~= ident);
    assert(expansion(set_prefix(ident), icon_name(ident)) =~= "icondata::Icon::from(icondata::"@
        + (set_prefix(ident) + icon_name(ident)) + ")"@);
}

} // verus!
