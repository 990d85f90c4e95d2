//! The access level of a generated item, with its serialization to and
//! from source-level keyword text.

use vstd::prelude::*;
use crate::text::str_eq;
use crate::token::{Attr, Delim, Token, TokenView, tokens_text, tokens_view};

verus! {

/// The access level of a generated method or constructor.
#[derive(Clone, Copy, PartialEq, Eq, Structural, Debug)]
pub enum Visibility {
    /// Visible to all modules (`pub`).
    Public,
    /// Visible within the current crate (`pub(crate)`).
    PublicCrate,
    /// Visible to the parent module (`pub(super)`).
    PublicSuper,
    /// Visible only within the defining module (no modifier).
    Private,
}

/// The canonical keyword spelling of an access level.
pub open spec fn spec_keyword(v: Visibility) -> Seq<char> {
    match v {
        Visibility::Public => "pub"@,
        Visibility::PublicCrate => "pub(crate)"@,
        Visibility::PublicSuper => "pub(super)"@,
        Visibility::Private => "private"@,
    }
}

/// Which access level a piece of keyword text denotes.  Both the
/// canonical spellings and the bare refinements `crate` and `super` are
/// accepted; anything else denotes no access level.
pub open spec fn spec_parse_visibility(s: Seq<char>) -> Option<Visibility> {
    if s == "pub"@ {
        Some(Visibility::Public)
    } else if s == "pub(crate)"@ || s == "crate"@ {
        Some(Visibility::PublicCrate)
    } else if s == "pub(super)"@ || s == "super"@ {
        Some(Visibility::PublicSuper)
    } else if s == "private"@ {
        Some(Visibility::Private)
    } else {
        None
    }
}

/// Parses keyword text into an access level, as
/// [`spec_parse_visibility`] describes.
pub fn parse_visibility(s: &str) -> (r: Option<Visibility>)
    ensures
        r == spec_parse_visibility(s@),
{
    if str_eq(s, "pub") {
        Some(Visibility::Public)
    } else if str_eq(s, "pub(crate)") || str_eq(s, "crate") {
        Some(Visibility::PublicCrate)
    } else if str_eq(s, "pub(super)") || str_eq(s, "super") {
        Some(Visibility::PublicSuper)
    } else if str_eq(s, "private") {
        Some(Visibility::Private)
    } else {
        None
    }
}

/// The token form of an access level: `Private` serializes to no tokens
/// at all.
pub open spec fn spec_visibility_tokens(v: Visibility) -> Seq<TokenView> {
    match v {
        Visibility::Public => seq![TokenView::Ident("pub"@)],
        Visibility::PublicCrate => seq![
            TokenView::Ident("pub"@),
            TokenView::Group(Delim::Paren, seq![TokenView::Ident("crate"@)]),
        ],
        Visibility::PublicSuper => seq![
            TokenView::Ident("pub"@),
            TokenView::Group(Delim::Paren, seq![TokenView::Ident("super"@)]),
        ],
        Visibility::Private => Seq::<TokenView>::empty(),
    }
}

impl Visibility {
    /// The canonical keyword spelling, e.g. `pub(crate)`; `Private`
    /// spells `private`.
    pub fn as_keyword(&self) -> (r: String)
        ensures
            r@ == spec_keyword(*self),
    {
        match self {
            Visibility::Public => String::from_str("pub"),
            Visibility::PublicCrate => String::from_str("pub(crate)"),
            Visibility::PublicSuper => String::from_str("pub(super)"),
            Visibility::Private => String::from_str("private"),
        }
    }

    /// The token form of the access level, as it stands before a
    /// generated item: `pub`, `pub(crate)`, `pub(super)`, or nothing for
    /// `Private`.
    pub fn to_token_stream(&self) -> (r: Vec<Token>)
        ensures
            tokens_view(r@) == spec_visibility_tokens(*self),
    {
        broadcast use crate::token::lemma_tokens_view_len, crate::token::lemma_tokens_view_index;

        match self {
            Visibility::Public => {
                let mut r: Vec<Token> = Vec::new();
                r.push(Token::Ident(String::from_str("pub")));
                proof {
                    assert(tokens_view(r@) =~= spec_visibility_tokens(*self));
                }
                r
            }
            Visibility::PublicCrate => {
                let mut inner: Vec<Token> = Vec::new();
                inner.push(Token::Ident(String::from_str("crate")));
                let ghost inner_snap = inner@;
                let mut r: Vec<Token> = Vec::new();
                r.push(Token::Ident(String::from_str("pub")));
                r.push(Token::Group(Delim::Paren, inner));
                proof {
                    assert(tokens_view(inner_snap) =~= seq![TokenView::Ident("crate"@)]);
                    assert(tokens_view(r@) =~= spec_visibility_tokens(*self));
                }
                r
            }
            Visibility::PublicSuper => {
                let mut inner: Vec<Token> = Vec::new();
                inner.push(Token::Ident(String::from_str("super")));
                let ghost inner_snap = inner@;
                let mut r: Vec<Token> = Vec::new();
                r.push(Token::Ident(String::from_str("pub")));
                r.push(Token::Group(Delim::Paren, inner));
                proof {
                    assert(tokens_view(inner_snap) =~= seq![TokenView::Ident("super"@)]);
                    assert(tokens_view(r@) =~= spec_visibility_tokens(*self));
                }
                r
            }
            Visibility::Private => {
                let r: Vec<Token> = Vec::new();
                proof {
                    assert(tokens_view(r@) =~= spec_visibility_tokens(*self));
                }
                r
            }
        }
    }

    /// Whether the access level is `Public`.
    pub fn is_public(&self) -> (r: bool)
        ensures
            r == (*self == Visibility::Public),
    {
        matches!(self, Visibility::Public)
    }
}

/// Serializing an access level to its keyword text and parsing that text
/// back yields the original access level, for every variant.
pub proof fn lemma_visibility_round_trip(v: Visibility)
    ensures
        spec_parse_visibility(spec_keyword(v)) == Some(v),
{
    reveal_strlit("pub");
    reveal_strlit("pub(crate)");
    reveal_strlit("pub(super)");
    reveal_strlit("private");
    reveal_strlit("crate");
    reveal_strlit("super");
    assert("pub"@.len() == 3);
    assert("pub(crate)"@.len() == 10);
    assert("pub(super)"@.len() == 10);
    assert("private"@.len() == 7);
    assert("crate"@.len() == 5);
    assert("super"@.len() == 5);
    assert("pub(crate)"@[4] == 'c' && "pub(super)"@[4] == 's');
}

} // verus!
